//! A kernel request and its routing: lifecycle checks against the session,
//! and the mapping of each opcode's arguments into the parameters of the
//! filesystem operation that serves it.
use vstd::prelude::*;

use crate::abi::{
    eio, enosys, eproto, fattr_atime, fattr_fh, fattr_gid, fattr_mode, fattr_mtime, fattr_size,
    fattr_uid, release_flush, spec_eio, spec_fattr_atime, spec_fattr_fh,
    spec_fattr_gid, spec_fattr_mode, spec_fattr_mtime, spec_fattr_size, spec_fattr_uid,
    spec_release_flush,
};
use crate::operation::{InitIn, Operation, SetAttrIn};
use crate::session::Session;

verus! {

/// A point in time as seconds and nanoseconds after the Unix epoch, as the
/// kernel sent it.
#[derive(Clone, Copy, Debug, PartialEq, Eq, Structural)]
pub struct Timestamp {
    pub secs: u64,
    pub nanos: u32,
}

/// `Some(v)` when `bit` is set in `valid`, else `None`: "no change requested".
pub open spec fn spec_if_valid<T>(valid: u32, bit: u32, v: T) -> Option<T> {
    if valid & bit != 0 {
        Some(v)
    } else {
        None
    }
}

fn if_valid<T>(valid: u32, bit: u32, v: T) -> (r: Option<T>)
    ensures
        r == spec_if_valid(valid, bit, v),
{
    if valid & bit != 0 {
        Some(v)
    } else {
        None
    }
}

impl SetAttrIn {
    pub open spec fn spec_mode(self) -> Option<u32> {
        spec_if_valid(self.valid, spec_fattr_mode(), self.mode)
    }

    pub open spec fn spec_uid(self) -> Option<u32> {
        spec_if_valid(self.valid, spec_fattr_uid(), self.uid)
    }

    pub open spec fn spec_gid(self) -> Option<u32> {
        spec_if_valid(self.valid, spec_fattr_gid(), self.gid)
    }

    pub open spec fn spec_size(self) -> Option<u64> {
        spec_if_valid(self.valid, spec_fattr_size(), self.size)
    }

    pub open spec fn spec_atime(self) -> Option<Timestamp> {
        spec_if_valid(self.valid, spec_fattr_atime(), Timestamp { secs: self.atime, nanos: self.atimensec })
    }

    pub open spec fn spec_mtime(self) -> Option<Timestamp> {
        spec_if_valid(self.valid, spec_fattr_mtime(), Timestamp { secs: self.mtime, nanos: self.mtimensec })
    }

    pub open spec fn spec_fh(self) -> Option<u64> {
        spec_if_valid(self.valid, spec_fattr_fh(), self.fh)
    }
}

/// One call of the filesystem's capability interface, with the parameters it
/// receives. `ino` is the node the request is about; `parent` a directory.
#[derive(Debug)]
pub enum FsCall {
    Lookup { parent: u64, name: Vec<u8> },
    Forget { ino: u64, nlookup: u64 },
    GetAttr { ino: u64 },
    SetAttr {
        ino: u64,
        mode: Option<u32>,
        uid: Option<u32>,
        gid: Option<u32>,
        size: Option<u64>,
        atime: Option<Timestamp>,
        mtime: Option<Timestamp>,
        fh: Option<u64>,
    },
    ReadLink { ino: u64 },
    MkNod { parent: u64, name: Vec<u8>, mode: u32, rdev: u32 },
    MkDir { parent: u64, name: Vec<u8>, mode: u32 },
    Unlink { parent: u64, name: Vec<u8> },
    RmDir { parent: u64, name: Vec<u8> },
    SymLink { parent: u64, name: Vec<u8>, link: Vec<u8> },
    Rename { parent: u64, name: Vec<u8>, newparent: u64, newname: Vec<u8> },
    Link { ino: u64, newparent: u64, newname: Vec<u8> },
    Open { ino: u64, flags: u32 },
    Read { ino: u64, fh: u64, offset: i64, size: u32 },
    Write { ino: u64, fh: u64, offset: i64, data: Vec<u8>, flags: u32 },
    Flush { ino: u64, fh: u64, lock_owner: u64 },
    Release { ino: u64, fh: u64, flags: u32, lock_owner: u64, flush: bool },
    FSync { ino: u64, fh: u64, datasync: bool },
    OpenDir { ino: u64, flags: u32 },
    ReadDir { ino: u64, fh: u64, offset: i64, size: u32 },
    ReleaseDir { ino: u64, fh: u64, flags: u32 },
    FSyncDir { ino: u64, fh: u64, datasync: bool },
    StatFs { ino: u64 },
    SetXAttr { ino: u64, name: Vec<u8>, value: Vec<u8>, flags: u32, position: u32 },
    GetXAttr { ino: u64, name: Vec<u8>, size: u32 },
    ListXAttr { ino: u64, size: u32 },
    RemoveXAttr { ino: u64, name: Vec<u8> },
    Access { ino: u64, mask: u32 },
    Create { parent: u64, name: Vec<u8>, mode: u32, flags: u32 },
    GetLk { ino: u64, fh: u64, lock_owner: u64, start: u64, end: u64, typ: u32, pid: u32 },
    SetLk {
        ino: u64,
        fh: u64,
        lock_owner: u64,
        start: u64,
        end: u64,
        typ: u32,
        pid: u32,
        sleep: bool,
    },
    BMap { ino: u64, blocksize: u32, idx: u64 },
}

impl FsCall {
    /// Every call but a forget answers the kernel through a reply.
    pub open spec fn spec_expects_reply(&self) -> bool {
        !(self is Forget)
    }

    pub fn expects_reply(&self) -> (r: bool)
        ensures
            r == self.spec_expects_reply(),
    {
        match self {
            FsCall::Forget { .. } => false,
            _ => true,
        }
    }
}

/// The reply the engine itself sends, without asking the filesystem.
#[derive(Clone, Copy, Debug, PartialEq, Eq, Structural)]
pub enum Reply {
    /// An error reply with this error code.
    Error(i32),
    /// A success reply with no payload.
    Empty,
    /// The success reply to an initialization request.
    Init(InitOut),
}

/// The parameters negotiated at initialization.
#[derive(Clone, Copy, Debug, PartialEq, Eq, Structural)]
pub struct InitOut {
    pub major: u32,
    pub minor: u32,
    pub max_readahead: u32,
    pub flags: u32,
    pub max_write: u32,
}

/// What the session does with a request.
#[derive(Debug)]
pub enum Dispatch {
    /// Send this reply now; no filesystem method runs.
    Reply(Reply),
    /// Run the filesystem's init hook, then complete the negotiation with
    /// `Session::complete_init`.
    Init(InitIn),
    /// Run the filesystem's destroy hook, then send an empty success reply.
    Destroy,
    /// Hand this call to an independently scheduled unit of work.
    Call(FsCall),
}

/// The header fields of a request.
#[derive(Clone, Copy, Debug, PartialEq, Eq, Structural)]
pub struct RequestHeader {
    pub unique: u64,
    pub nodeid: u64,
    pub uid: u32,
    pub gid: u32,
    pub pid: u32,
}

/// One kernel request: its header and its decoded body.
#[derive(Debug)]
pub struct Request {
    pub header: RequestHeader,
    pub operation: Operation,
}

/// Whether the fsync flags ask for a data-only sync.
pub open spec fn spec_datasync(fsync_flags: u32) -> bool {
    fsync_flags & 1 != 0
}

impl Request {
    pub fn new(header: RequestHeader, operation: Operation) -> (r: Request)
        ensures
            r.header == header,
            r.operation == operation,
    {
        Request { header, operation }
    }

    /// The filesystem call that serves this request, if its opcode maps to one.
    pub open spec fn spec_call(self) -> Option<FsCall> {
        let ino = self.header.nodeid;
        match self.operation {
            Operation::Lookup { name } => Some(FsCall::Lookup { parent: ino, name }),
            Operation::Forget { nlookup } => Some(FsCall::Forget { ino, nlookup }),
            Operation::GetAttr => Some(FsCall::GetAttr { ino }),
            Operation::SetAttr { arg } => Some(
                FsCall::SetAttr {
                    ino,
                    mode: arg.spec_mode(),
                    uid: arg.spec_uid(),
                    gid: arg.spec_gid(),
                    size: arg.spec_size(),
                    atime: arg.spec_atime(),
                    mtime: arg.spec_mtime(),
                    fh: arg.spec_fh(),
                },
            ),
            Operation::ReadLink => Some(FsCall::ReadLink { ino }),
            Operation::SymLink { name, link } => Some(FsCall::SymLink { parent: ino, name, link }),
            Operation::MkNod { name, mode, rdev } => Some(
                FsCall::MkNod { parent: ino, name, mode, rdev },
            ),
            Operation::MkDir { name, mode } => Some(FsCall::MkDir { parent: ino, name, mode }),
            Operation::Unlink { name } => Some(FsCall::Unlink { parent: ino, name }),
            Operation::RmDir { name } => Some(FsCall::RmDir { parent: ino, name }),
            Operation::Rename { name, newdir, newname } => Some(
                FsCall::Rename { parent: ino, name, newparent: newdir, newname },
            ),
            Operation::Link { oldnodeid, name } => Some(
                FsCall::Link { ino: oldnodeid, newparent: ino, newname: name },
            ),
            Operation::Open { flags } => Some(FsCall::Open { ino, flags }),
            Operation::Read { fh, offset, size } => Some(
                FsCall::Read { ino, fh, offset: offset as i64, size },
            ),
            Operation::Write { fh, offset, write_flags, data, .. } => Some(
                FsCall::Write { ino, fh, offset: offset as i64, data, flags: write_flags },
            ),
            Operation::StatFs => Some(FsCall::StatFs { ino }),
            Operation::Release { fh, flags, release_flags, lock_owner } => Some(
                FsCall::Release {
                    ino,
                    fh,
                    flags,
                    lock_owner,
                    flush: release_flags & spec_release_flush() != 0,
                },
            ),
            Operation::FSync { fh, fsync_flags } => Some(
                FsCall::FSync { ino, fh, datasync: spec_datasync(fsync_flags) },
            ),
            Operation::SetXAttr { name, flags, value, .. } => Some(
                FsCall::SetXAttr { ino, name, value, flags, position: 0 },
            ),
            Operation::GetXAttr { name, size } => Some(FsCall::GetXAttr { ino, name, size }),
            Operation::ListXAttr { size } => Some(FsCall::ListXAttr { ino, size }),
            Operation::RemoveXAttr { name } => Some(FsCall::RemoveXAttr { ino, name }),
            Operation::Flush { fh, lock_owner } => Some(FsCall::Flush { ino, fh, lock_owner }),
            Operation::OpenDir { flags } => Some(FsCall::OpenDir { ino, flags }),
            Operation::ReadDir { fh, offset, size } => Some(
                FsCall::ReadDir { ino, fh, offset: offset as i64, size },
            ),
            Operation::ReleaseDir { fh, flags, .. } => Some(FsCall::ReleaseDir { ino, fh, flags }),
            Operation::FSyncDir { fh, fsync_flags } => Some(
                FsCall::FSyncDir { ino, fh, datasync: spec_datasync(fsync_flags) },
            ),
            Operation::GetLk { fh, owner, lk } => Some(
                FsCall::GetLk {
                    ino,
                    fh,
                    lock_owner: owner,
                    start: lk.start,
                    end: lk.end,
                    typ: lk.typ,
                    pid: lk.pid,
                },
            ),
            Operation::SetLk { fh, owner, lk } => Some(
                FsCall::SetLk {
                    ino,
                    fh,
                    lock_owner: owner,
                    start: lk.start,
                    end: lk.end,
                    typ: lk.typ,
                    pid: lk.pid,
                    sleep: false,
                },
            ),
            Operation::SetLkW { fh, owner, lk } => Some(
                FsCall::SetLk {
                    ino,
                    fh,
                    lock_owner: owner,
                    start: lk.start,
                    end: lk.end,
                    typ: lk.typ,
                    pid: lk.pid,
                    sleep: true,
                },
            ),
            Operation::Access { mask } => Some(FsCall::Access { ino, mask }),
            Operation::Create { name, mode, flags } => Some(
                FsCall::Create { parent: ino, name, mode, flags },
            ),
            Operation::BMap { block, blocksize } => Some(FsCall::BMap { ino, blocksize, idx: block }),
            Operation::Init { .. } => None,
            Operation::Destroy => None,
            Operation::Interrupt { .. } => None,
        }
    }

    /// Maps the request to the filesystem call that serves it.
    /// Initialization, destruction and interrupts map to no call.
    pub fn dispatch_other(self) -> (r: Option<FsCall>)
        requires
            self.operation.spec_payload_consistent(),
        ensures
            r == self.spec_call(),
    {
        let ino = self.header.nodeid;
        match self.operation {
            Operation::Lookup { name } => Some(FsCall::Lookup { parent: ino, name }),
            Operation::Forget { nlookup } => Some(FsCall::Forget { ino, nlookup }),
            Operation::GetAttr => Some(FsCall::GetAttr { ino }),
            Operation::SetAttr { arg } => {
                let mode = if_valid(arg.valid, fattr_mode(), arg.mode);
                let uid = if_valid(arg.valid, fattr_uid(), arg.uid);
                let gid = if_valid(arg.valid, fattr_gid(), arg.gid);
                let size = if_valid(arg.valid, fattr_size(), arg.size);
                let atime = if_valid(
                    arg.valid,
                    fattr_atime(),
                    Timestamp { secs: arg.atime, nanos: arg.atimensec },
                );
                let mtime = if_valid(
                    arg.valid,
                    fattr_mtime(),
                    Timestamp { secs: arg.mtime, nanos: arg.mtimensec },
                );
                let fh = if_valid(arg.valid, fattr_fh(), arg.fh);
                Some(FsCall::SetAttr { ino, mode, uid, gid, size, atime, mtime, fh })
            },
            Operation::ReadLink => Some(FsCall::ReadLink { ino }),
            Operation::SymLink { name, link } => Some(FsCall::SymLink { parent: ino, name, link }),
            Operation::MkNod { name, mode, rdev } => Some(
                FsCall::MkNod { parent: ino, name, mode, rdev },
            ),
            Operation::MkDir { name, mode } => Some(FsCall::MkDir { parent: ino, name, mode }),
            Operation::Unlink { name } => Some(FsCall::Unlink { parent: ino, name }),
            Operation::RmDir { name } => Some(FsCall::RmDir { parent: ino, name }),
            Operation::Rename { name, newdir, newname } => Some(
                FsCall::Rename { parent: ino, name, newparent: newdir, newname },
            ),
            Operation::Link { oldnodeid, name } => Some(
                FsCall::Link { ino: oldnodeid, newparent: ino, newname: name },
            ),
            Operation::Open { flags } => Some(FsCall::Open { ino, flags }),
            Operation::Read { fh, offset, size } => Some(
                FsCall::Read { ino, fh, offset: offset as i64, size },
            ),
            Operation::Write { fh, offset, write_flags, data, .. } => Some(
                FsCall::Write { ino, fh, offset: offset as i64, data, flags: write_flags },
            ),
            Operation::StatFs => Some(FsCall::StatFs { ino }),
            Operation::Release { fh, flags, release_flags, lock_owner } => {
                let flush = release_flags & release_flush() != 0;
                Some(FsCall::Release { ino, fh, flags, lock_owner, flush })
            },
            Operation::FSync { fh, fsync_flags } => Some(
                FsCall::FSync { ino, fh, datasync: fsync_flags & 1 != 0 },
            ),
            Operation::SetXAttr { name, flags, value, .. } => Some(
                FsCall::SetXAttr { ino, name, value, flags, position: 0 },
            ),
            Operation::GetXAttr { name, size } => Some(FsCall::GetXAttr { ino, name, size }),
            Operation::ListXAttr { size } => Some(FsCall::ListXAttr { ino, size }),
            Operation::RemoveXAttr { name } => Some(FsCall::RemoveXAttr { ino, name }),
            Operation::Flush { fh, lock_owner } => Some(FsCall::Flush { ino, fh, lock_owner }),
            Operation::OpenDir { flags } => Some(FsCall::OpenDir { ino, flags }),
            Operation::ReadDir { fh, offset, size } => Some(
                FsCall::ReadDir { ino, fh, offset: offset as i64, size },
            ),
            Operation::ReleaseDir { fh, flags, .. } => Some(FsCall::ReleaseDir { ino, fh, flags }),
            Operation::FSyncDir { fh, fsync_flags } => Some(
                FsCall::FSyncDir { ino, fh, datasync: fsync_flags & 1 != 0 },
            ),
            Operation::GetLk { fh, owner, lk } => Some(
                FsCall::GetLk {
                    ino,
                    fh,
                    lock_owner: owner,
                    start: lk.start,
                    end: lk.end,
                    typ: lk.typ,
                    pid: lk.pid,
                },
            ),
            Operation::SetLk { fh, owner, lk } => Some(
                FsCall::SetLk {
                    ino,
                    fh,
                    lock_owner: owner,
                    start: lk.start,
                    end: lk.end,
                    typ: lk.typ,
                    pid: lk.pid,
                    sleep: false,
                },
            ),
            Operation::SetLkW { fh, owner, lk } => Some(
                FsCall::SetLk {
                    ino,
                    fh,
                    lock_owner: owner,
                    start: lk.start,
                    end: lk.end,
                    typ: lk.typ,
                    pid: lk.pid,
                    sleep: true,
                },
            ),
            Operation::Access { mask } => Some(FsCall::Access { ino, mask }),
            Operation::Create { name, mode, flags } => Some(
                FsCall::Create { parent: ino, name, mode, flags },
            ),
            Operation::BMap { block, blocksize } => Some(FsCall::BMap { ino, blocksize, idx: block }),
            Operation::Init { .. } => None,
            Operation::Destroy => None,
            Operation::Interrupt { .. } => None,
        }
    }

    /// Whether this request destroys a session in the given lifecycle state.
    pub open spec fn spec_destroys(self, initialized: bool, destroyed: bool) -> bool {
        initialized && !destroyed && self.operation is Destroy
    }

    /// What a session in the given lifecycle state does with this request,
    /// checked in this order: initialization is handled in any state, and a
    /// version it does not speak is refused with `protocol_error`; any other
    /// request before initialization or after destruction is rejected with an
    /// I/O error; destruction is answered inline, and an interrupt with
    /// `not_implemented`; every other request becomes a call of the filesystem.
    pub open spec fn spec_dispatch(
        self,
        initialized: bool,
        destroyed: bool,
        not_implemented: i32,
        protocol_error: i32,
    ) -> Dispatch {
        match self.operation {
            Operation::Init { arg } => if arg.spec_unsupported() {
                Dispatch::Reply(Reply::Error(protocol_error))
            } else {
                Dispatch::Init(arg)
            },
            _ => if !initialized || destroyed {
                Dispatch::Reply(Reply::Error(spec_eio()))
            } else {
                match self.operation {
                    Operation::Destroy => Dispatch::Destroy,
                    Operation::Interrupt { .. } => Dispatch::Reply(Reply::Error(not_implemented)),
                    _ => Dispatch::Call(self.spec_call().unwrap()),
                }
            },
        }
    }

    /// Applies the session's lifecycle rules to this request, answering an
    /// interrupt with the error code `not_implemented` and an unsupported
    /// protocol version with `protocol_error`. A destroy request on a live
    /// session marks it destroyed; nothing else changes the session here
    /// (initialization completes in `Session::complete_init`).
    pub fn dispatch_with_codes<FS>(
        self,
        se: &mut Session<FS>,
        not_implemented: i32,
        protocol_error: i32,
    ) -> (r: Dispatch)
        requires
            old(se).wf(),
            old(se).initialized && !old(se).destroyed ==> self.operation.spec_payload_consistent(),
        ensures
            r == self.spec_dispatch(
                old(se).initialized,
                old(se).destroyed,
                not_implemented,
                protocol_error,
            ),
            final(se).wf(),
            final(se).destroyed == (old(se).destroyed || self.spec_destroys(
                old(se).initialized,
                old(se).destroyed,
            )),
            final(se).initialized == old(se).initialized,
            final(se).proto_major == old(se).proto_major,
            final(se).proto_minor == old(se).proto_minor,
            final(se).filesystem == old(se).filesystem,
            final(se).mountpoint == old(se).mountpoint,
    {
        match self.operation {
            Operation::Init { arg } => {
                if arg.unsupported() {
                    Dispatch::Reply(Reply::Error(protocol_error))
                } else {
                    Dispatch::Init(arg)
                }
            },
            _ => {
                if !se.initialized || se.destroyed {
                    Dispatch::Reply(Reply::Error(eio()))
                } else {
                    match self.operation {
                        Operation::Destroy => {
                            se.destroyed = true;
                            Dispatch::Destroy
                        },
                        Operation::Interrupt { .. } => Dispatch::Reply(Reply::Error(not_implemented)),
                        _ => Dispatch::Call(self.dispatch_other().unwrap()),
                    }
                }
            },
        }
    }

    /// Applies the session's lifecycle rules to this request, with the
    /// platform's ENOSYS and EPROTO codes. The result is that of
    /// `dispatch_with_codes` for some positive pair of codes.
    pub fn dispatch<FS>(self, se: &mut Session<FS>) -> (r: Dispatch)
        requires
            old(se).wf(),
            old(se).initialized && !old(se).destroyed ==> self.operation.spec_payload_consistent(),
        ensures
            exists|not_implemented: i32, protocol_error: i32|
                not_implemented > 0 && protocol_error > 0 && r == self.spec_dispatch(
                    old(se).initialized,
                    old(se).destroyed,
                    not_implemented,
                    protocol_error,
                ),
            final(se).wf(),
            final(se).destroyed == (old(se).destroyed || self.spec_destroys(
                old(se).initialized,
                old(se).destroyed,
            )),
            final(se).initialized == old(se).initialized,
            final(se).proto_major == old(se).proto_major,
            final(se).proto_minor == old(se).proto_minor,
            final(se).filesystem == old(se).filesystem,
            final(se).mountpoint == old(se).mountpoint,
    {
        let not_implemented = enosys();
        let protocol_error = eproto();
        self.dispatch_with_codes(se, not_implemented, protocol_error)
    }

    /// Returns the unique identifier of this request.
    pub fn unique(&self) -> (r: u64)
        ensures
            r == self.header.unique,
    {
        self.header.unique
    }

    /// Returns the node the request is about.
    pub fn nodeid(&self) -> (r: u64)
        ensures
            r == self.header.nodeid,
    {
        self.header.nodeid
    }

    /// Returns the uid of the calling process.
    pub fn uid(&self) -> (r: u32)
        ensures
            r == self.header.uid,
    {
        self.header.uid
    }

    /// Returns the gid of the calling process.
    pub fn gid(&self) -> (r: u32)
        ensures
            r == self.header.gid,
    {
        self.header.gid
    }

    /// Returns the pid of the calling process.
    pub fn pid(&self) -> (r: u32)
        ensures
            r == self.header.pid,
    {
        self.header.pid
    }
}

} // verus!
