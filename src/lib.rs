//! A session engine for the FUSE kernel protocol: lifecycle state of a mounted
//! filesystem, routing of decoded kernel requests to filesystem operations, and
//! the decisions of the receive loop.
pub mod abi;
pub mod operation;
pub mod request;
pub mod session;
pub mod laws;
