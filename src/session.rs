//! Session state: the lifecycle of a mounted filesystem, the negotiated
//! protocol version, and the decisions of the receive loop.
use vstd::prelude::*;

use crate::abi::{
    async_read, eagain, eintr, enodev, enoent, kernel_minor_version, kernel_version,
    spec_async_read, spec_eagain, spec_eintr, spec_enodev, spec_enoent, spec_kernel_minor_version,
    spec_kernel_version,
};
use crate::operation::InitIn;
use crate::request::{InitOut, Reply};

verus! {

/// The largest write the kernel may send, reported to it at initialization.
pub const MAX_WRITE_SIZE: usize = 16 * 1024 * 1024;

/// Size of the one buffer a session reads requests into: the largest write
/// plus room for the protocol headers.
pub const BUFFER_SIZE: usize = MAX_WRITE_SIZE + 4096;

/// The capability flags this engine supports.
pub open spec fn spec_init_flags() -> u32 {
    spec_async_read()
}

/// The reply to a successful initialization with the kernel's arguments `arg`.
pub open spec fn spec_init_out(arg: InitIn) -> InitOut {
    InitOut {
        major: spec_kernel_version(),
        minor: spec_kernel_minor_version(),
        max_readahead: arg.max_readahead,
        flags: arg.flags & spec_init_flags(),
        max_write: MAX_WRITE_SIZE as u32,
    }
}

/// A mounted filesystem's session.
#[derive(Debug)]
pub struct Session<FS> {
    /// The filesystem implementation.
    pub filesystem: FS,
    /// Path of the mounted filesystem.
    pub mountpoint: String,
    /// Protocol major version, 0 until initialization succeeds.
    pub proto_major: u32,
    /// Protocol minor version, 0 until initialization succeeds.
    pub proto_minor: u32,
    /// Set once initialization has succeeded.
    pub initialized: bool,
    /// Set once the filesystem was destroyed.
    pub destroyed: bool,
}

/// What the receive loop does next.
#[derive(Clone, Copy, Debug, PartialEq, Eq, Structural)]
pub enum LoopStep {
    /// Read again, with the same buffer.
    Continue,
    /// End the loop with success.
    Finish,
    /// End the loop, handing the read error to the caller.
    Fail,
}

/// The loop's answer to a read that failed with OS error code `errno`.
pub open spec fn spec_read_error_step(errno: Option<i32>) -> LoopStep {
    match errno {
        Some(e) => if e == spec_enoent() || e == spec_eintr() || e == spec_eagain() {
            LoopStep::Continue
        } else if e == spec_enodev() {
            LoopStep::Finish
        } else {
            LoopStep::Fail
        },
        None => LoopStep::Fail,
    }
}

impl<FS> Session<FS> {
    /// A session never is destroyed without having been initialized.
    pub open spec fn wf(&self) -> bool {
        self.destroyed ==> self.initialized
    }

    /// A fresh session for a filesystem mounted at `mountpoint`.
    pub fn new(filesystem: FS, mountpoint: String) -> (r: Session<FS>)
        ensures
            r.wf(),
            r.filesystem == filesystem,
            r.mountpoint@ == mountpoint@,
            r.proto_major == 0,
            r.proto_minor == 0,
            !r.initialized,
            !r.destroyed,
    {
        Session {
            filesystem,
            mountpoint,
            proto_major: 0,
            proto_minor: 0,
            initialized: false,
            destroyed: false,
        }
    }

    /// Returns the path of the mounted filesystem.
    pub fn mountpoint(&self) -> (r: &str)
        ensures
            r@ == self.mountpoint@,
    {
        self.mountpoint.as_str()
    }

    /// Completes an initialization request whose version was accepted, given
    /// what the filesystem's init hook returned. On success the session is
    /// initialized, and the version of its first successful negotiation is kept.
    pub fn complete_init(&mut self, arg: InitIn, result: Result<(), i32>) -> (r: Reply)
        requires
            old(self).wf(),
        ensures
            final(self).wf(),
            final(self).filesystem == old(self).filesystem,
            final(self).mountpoint == old(self).mountpoint,
            final(self).destroyed == old(self).destroyed,
            match result {
                Err(e) => {
                    &&& r == Reply::Error(e)
                    &&& final(self).initialized == old(self).initialized
                    &&& final(self).proto_major == old(self).proto_major
                    &&& final(self).proto_minor == old(self).proto_minor
                },
                Ok(()) => {
                    &&& r == Reply::Init(spec_init_out(arg))
                    &&& final(self).initialized
                    &&& old(self).initialized ==> final(self).proto_major == old(self).proto_major
                        && final(self).proto_minor == old(self).proto_minor
                    &&& !old(self).initialized ==> final(self).proto_major == arg.major
                        && final(self).proto_minor == arg.minor
                },
            },
    {
        match result {
            Err(e) => Reply::Error(e),
            Ok(()) => {
                if !self.initialized {
                    self.proto_major = arg.major;
                    self.proto_minor = arg.minor;
                }
                self.initialized = true;
                let init = InitOut {
                    major: kernel_version(),
                    minor: kernel_minor_version(),
                    max_readahead: arg.max_readahead,
                    flags: arg.flags & async_read(),
                    max_write: MAX_WRITE_SIZE as u32,
                };
                Reply::Init(init)
            },
        }
    }

    /// Classifies a failed read: interrupted, retry-requested and stale-entry
    /// errors are retried; "no such device" means the filesystem was unmounted
    /// and ends the loop cleanly; anything else is fatal.
    pub fn read_error_step(errno: Option<i32>) -> (r: LoopStep)
        ensures
            r == spec_read_error_step(errno),
    {
        match errno {
            Some(e) => {
                if e == enoent() || e == eintr() || e == eagain() {
                    LoopStep::Continue
                } else if e == enodev() {
                    LoopStep::Finish
                } else {
                    LoopStep::Fail
                }
            },
            None => LoopStep::Fail,
        }
    }
}

} // verus!
