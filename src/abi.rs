//! Protocol constants, read from `fuse_abi` and `libc`.
use vstd::prelude::*;

verus! {

/// Protocol major version this engine speaks.
pub open spec fn spec_kernel_version() -> u32 {
    7
}

/// Protocol minor version this engine speaks.
pub open spec fn spec_kernel_minor_version() -> u32 {
    40
}

/// Capability bit: the filesystem accepts reads issued asynchronously.
pub open spec fn spec_async_read() -> u32 {
    1
}

/// Validity bits of a set-attribute request.
pub open spec fn spec_fattr_mode() -> u32 {
    1
}

pub open spec fn spec_fattr_uid() -> u32 {
    2
}

pub open spec fn spec_fattr_gid() -> u32 {
    4
}

pub open spec fn spec_fattr_size() -> u32 {
    8
}

pub open spec fn spec_fattr_atime() -> u32 {
    16
}

pub open spec fn spec_fattr_mtime() -> u32 {
    32
}

pub open spec fn spec_fattr_fh() -> u32 {
    64
}

/// Release flag: flush the file while releasing it.
pub open spec fn spec_release_flush() -> u32 {
    1
}

/// Error codes that every Linux architecture gives the same value.
pub open spec fn spec_eio() -> i32 {
    5
}

pub open spec fn spec_enoent() -> i32 {
    2
}

pub open spec fn spec_eintr() -> i32 {
    4
}

pub open spec fn spec_eagain() -> i32 {
    11
}

pub open spec fn spec_enodev() -> i32 {
    19
}

/// Relies on fuse_abi::linux::FUSE_KERNEL_VERSION, the protocol major version.
#[verifier::external_body]
pub(crate) fn kernel_version() -> (r: u32)
    ensures
        r == spec_kernel_version(),
{
    fuse_abi::linux::FUSE_KERNEL_VERSION
}

/// Relies on fuse_abi::linux::FUSE_KERNEL_MINOR_VERSION, the protocol minor version.
#[verifier::external_body]
pub(crate) fn kernel_minor_version() -> (r: u32)
    ensures
        r == spec_kernel_minor_version(),
{
    fuse_abi::linux::FUSE_KERNEL_MINOR_VERSION
}

/// Relies on fuse_abi::linux::FUSE_ASYNC_READ, the asynchronous-read capability bit.
#[verifier::external_body]
pub(crate) fn async_read() -> (r: u32)
    ensures
        r == spec_async_read(),
{
    fuse_abi::linux::FUSE_ASYNC_READ
}

/// Relies on fuse_abi::linux::FATTR_MODE, the validity bit of a mode change.
#[verifier::external_body]
pub(crate) fn fattr_mode() -> (r: u32)
    ensures
        r == spec_fattr_mode(),
{
    fuse_abi::linux::FATTR_MODE
}

/// Relies on fuse_abi::linux::FATTR_UID, the validity bit of an owner change.
#[verifier::external_body]
pub(crate) fn fattr_uid() -> (r: u32)
    ensures
        r == spec_fattr_uid(),
{
    fuse_abi::linux::FATTR_UID
}

/// Relies on fuse_abi::linux::FATTR_GID, the validity bit of a group change.
#[verifier::external_body]
pub(crate) fn fattr_gid() -> (r: u32)
    ensures
        r == spec_fattr_gid(),
{
    fuse_abi::linux::FATTR_GID
}

/// Relies on fuse_abi::linux::FATTR_SIZE, the validity bit of a size change.
#[verifier::external_body]
pub(crate) fn fattr_size() -> (r: u32)
    ensures
        r == spec_fattr_size(),
{
    fuse_abi::linux::FATTR_SIZE
}

/// Relies on fuse_abi::linux::FATTR_ATIME, the validity bit of an access-time change.
#[verifier::external_body]
pub(crate) fn fattr_atime() -> (r: u32)
    ensures
        r == spec_fattr_atime(),
{
    fuse_abi::linux::FATTR_ATIME
}

/// Relies on fuse_abi::linux::FATTR_MTIME, the validity bit of a modification-time change.
#[verifier::external_body]
pub(crate) fn fattr_mtime() -> (r: u32)
    ensures
        r == spec_fattr_mtime(),
{
    fuse_abi::linux::FATTR_MTIME
}

/// Relies on fuse_abi::linux::FATTR_FH, the validity bit of a file handle.
#[verifier::external_body]
pub(crate) fn fattr_fh() -> (r: u32)
    ensures
        r == spec_fattr_fh(),
{
    fuse_abi::linux::FATTR_FH
}

/// Relies on fuse_abi::linux::FUSE_RELEASE_FLUSH, the release flag that asks for a flush.
#[verifier::external_body]
pub(crate) fn release_flush() -> (r: u32)
    ensures
        r == spec_release_flush(),
{
    fuse_abi::linux::FUSE_RELEASE_FLUSH
}

/// Relies on libc::EIO, the I/O error code (5 on Linux).
#[verifier::external_body]
pub(crate) fn eio() -> (r: i32)
    ensures
        r == spec_eio(),
{
    libc::EIO
}

/// Relies on libc::ENOSYS, the "not implemented" error code. Its value
/// differs between architectures; every one of them is positive.
#[verifier::external_body]
pub(crate) fn enosys() -> (r: i32)
    ensures
        r > 0,
{
    libc::ENOSYS
}

/// Relies on libc::EPROTO, the protocol error code. Its value differs between
/// architectures; every one of them is positive.
#[verifier::external_body]
pub(crate) fn eproto() -> (r: i32)
    ensures
        r > 0,
{
    libc::EPROTO
}

/// Relies on libc::ENOENT, the "no such entry" error code (2 on Linux).
#[verifier::external_body]
pub(crate) fn enoent() -> (r: i32)
    ensures
        r == spec_enoent(),
{
    libc::ENOENT
}

/// Relies on libc::EINTR, the "interrupted call" error code (4 on Linux).
#[verifier::external_body]
pub(crate) fn eintr() -> (r: i32)
    ensures
        r == spec_eintr(),
{
    libc::EINTR
}

/// Relies on libc::EAGAIN, the "try again" error code (11 on Linux).
#[verifier::external_body]
pub(crate) fn eagain() -> (r: i32)
    ensures
        r == spec_eagain(),
{
    libc::EAGAIN
}

/// Relies on libc::ENODEV, the "no such device" error code (19 on Linux).
#[verifier::external_body]
pub(crate) fn enodev() -> (r: i32)
    ensures
        r == spec_enodev(),
{
    libc::ENODEV
}

} // verus!
