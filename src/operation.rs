//! Decoded kernel requests: one variant per opcode, each with the fields of
//! that opcode's argument block and its trailing bytes.
use vstd::prelude::*;

verus! {

/// Arguments of an initialization request.
#[derive(Clone, Copy, Debug, PartialEq, Eq, Structural)]
pub struct InitIn {
    pub major: u32,
    pub minor: u32,
    pub max_readahead: u32,
    pub flags: u32,
}

impl InitIn {
    /// Protocol versions before 7.6 are not spoken by this engine.
    pub open spec fn spec_unsupported(self) -> bool {
        self.major < 7 || (self.major == 7 && self.minor < 6)
    }

    pub fn unsupported(&self) -> (r: bool)
        ensures
            r == self.spec_unsupported(),
    {
        self.major < 7 || (self.major == 7 && self.minor < 6)
    }
}

/// Arguments of a set-attribute request: `valid` tells which fields carry a change.
#[derive(Clone, Copy, Debug, PartialEq, Eq, Structural)]
pub struct SetAttrIn {
    pub valid: u32,
    pub fh: u64,
    pub size: u64,
    pub atime: u64,
    pub mtime: u64,
    pub atimensec: u32,
    pub mtimensec: u32,
    pub mode: u32,
    pub uid: u32,
    pub gid: u32,
}

/// A byte-range lock as the kernel describes it.
#[derive(Clone, Copy, Debug, PartialEq, Eq, Structural)]
pub struct FileLock {
    pub start: u64,
    pub end: u64,
    pub typ: u32,
    pub pid: u32,
}

/// One decoded kernel request body.
#[derive(Debug)]
pub enum Operation {
    Lookup { name: Vec<u8> },
    Forget { nlookup: u64 },
    GetAttr,
    SetAttr { arg: SetAttrIn },
    ReadLink,
    SymLink { name: Vec<u8>, link: Vec<u8> },
    MkNod { name: Vec<u8>, mode: u32, rdev: u32 },
    MkDir { name: Vec<u8>, mode: u32 },
    Unlink { name: Vec<u8> },
    RmDir { name: Vec<u8> },
    Rename { name: Vec<u8>, newdir: u64, newname: Vec<u8> },
    Link { oldnodeid: u64, name: Vec<u8> },
    Open { flags: u32 },
    Read { fh: u64, offset: u64, size: u32 },
    Write { fh: u64, offset: u64, size: u32, write_flags: u32, data: Vec<u8> },
    StatFs,
    Release { fh: u64, flags: u32, release_flags: u32, lock_owner: u64 },
    FSync { fh: u64, fsync_flags: u32 },
    SetXAttr { name: Vec<u8>, size: u32, flags: u32, value: Vec<u8> },
    GetXAttr { name: Vec<u8>, size: u32 },
    ListXAttr { size: u32 },
    RemoveXAttr { name: Vec<u8> },
    Flush { fh: u64, lock_owner: u64 },
    Init { arg: InitIn },
    OpenDir { flags: u32 },
    ReadDir { fh: u64, offset: u64, size: u32 },
    ReleaseDir { fh: u64, flags: u32, release_flags: u32, lock_owner: u64 },
    FSyncDir { fh: u64, fsync_flags: u32 },
    GetLk { fh: u64, owner: u64, lk: FileLock },
    SetLk { fh: u64, owner: u64, lk: FileLock },
    SetLkW { fh: u64, owner: u64, lk: FileLock },
    Access { mask: u32 },
    Create { name: Vec<u8>, mode: u32, flags: u32 },
    Interrupt { unique: u64 },
    BMap { block: u64, blocksize: u32 },
    Destroy,
}

impl Operation {
    /// The trailing payload of a write or of an extended-attribute update is
    /// exactly as long as its header declares.
    pub open spec fn spec_payload_consistent(&self) -> bool {
        match self {
            Operation::Write { size, data, .. } => data@.len() == *size as int,
            Operation::SetXAttr { size, value, .. } => value@.len() == *size as int,
            _ => true,
        }
    }

    pub fn payload_consistent(&self) -> (r: bool)
        ensures
            r == self.spec_payload_consistent(),
    {
        match self {
            Operation::Write { size, data, .. } => data.len() as u64 == *size as u64,
            Operation::SetXAttr { size, value, .. } => value.len() as u64 == *size as u64,
            _ => true,
        }
    }
}

} // verus!
