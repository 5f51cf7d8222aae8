//! Properties of the session's lifecycle rules and of argument mapping.
use vstd::prelude::*;

use crate::abi::{spec_eio, spec_fattr_size};
use crate::operation::{InitIn, Operation, SetAttrIn};
use crate::request::{Dispatch, FsCall, Reply, Request, RequestHeader};
use crate::session::{spec_init_flags, spec_init_out, Session, MAX_WRITE_SIZE};

verus! {

/// Before initialization, every request but an initialization is answered
/// with an I/O error, no filesystem method runs and the session stays as it is.
pub proof fn lemma_rejected_before_init<FS>(
    se: Session<FS>,
    req: Request,
    not_implemented: i32,
    protocol_error: i32,
)
    requires
        se.wf(),
        !se.initialized,
        !(req.operation is Init),
    ensures
        req.spec_dispatch(se.initialized, se.destroyed, not_implemented, protocol_error) == Dispatch::Reply(Reply::Error(spec_eio())),
        !req.spec_destroys(se.initialized, se.destroyed),
{
}

/// After destruction, every request but an initialization, a second
/// destruction included, is answered with an I/O error, no filesystem method
/// runs and the session stays as it is.
pub proof fn lemma_rejected_after_destroy<FS>(
    se: Session<FS>,
    req: Request,
    not_implemented: i32,
    protocol_error: i32,
)
    requires
        se.wf(),
        se.destroyed,
        !(req.operation is Init),
    ensures
        req.spec_dispatch(se.initialized, se.destroyed, not_implemented, protocol_error) == Dispatch::Reply(Reply::Error(spec_eio())),
        !req.spec_destroys(se.initialized, se.destroyed),
{
}

/// An initialization with major version 6 is refused with the protocol
/// error code;
/// one with version 7.6 or later goes on to the filesystem's init hook.
pub proof fn lemma_init_version<FS>(
    se: Session<FS>,
    req: Request,
    arg: InitIn,
    not_implemented: i32,
    protocol_error: i32,
)
    requires
        req.operation == (Operation::Init { arg }),
    ensures
        arg.major == 6 ==> req.spec_dispatch(se.initialized, se.destroyed, not_implemented, protocol_error) == Dispatch::Reply(
            Reply::Error(protocol_error),
        ),
        arg.major == 7 && arg.minor >= 6 ==> req.spec_dispatch(se.initialized, se.destroyed, not_implemented, protocol_error)
            == Dispatch::Init(arg),
{
}

/// A successful initialization reports the kernel's flags intersected with
/// the engine's supported flags, and the fixed write size whatever the kernel
/// asked for.
pub proof fn lemma_init_reply(arg: InitIn)
    ensures
        spec_init_out(arg).flags == arg.flags & spec_init_flags(),
        spec_init_out(arg).max_write == MAX_WRITE_SIZE as u32,
        spec_init_out(arg).max_readahead == arg.max_readahead,
{
}

/// A set-attribute request whose validity mask holds only the size bit
/// becomes a call with the size and no other change.
pub proof fn lemma_setattr_size_only(header: RequestHeader, arg: SetAttrIn)
    requires
        arg.valid == spec_fattr_size(),
    ensures
        (Request { header, operation: Operation::SetAttr { arg } }).spec_call() == Some(
            FsCall::SetAttr {
                ino: header.nodeid,
                mode: None,
                uid: None,
                gid: None,
                size: Some(arg.size),
                atime: None,
                mtime: None,
                fh: None,
            },
        ),
{
    assert(8u32 & 1u32 == 0 && 8u32 & 2u32 == 0 && 8u32 & 4u32 == 0 && 8u32 & 8u32 != 0 && 8u32
        & 16u32 == 0 && 8u32 & 32u32 == 0 && 8u32 & 64u32 == 0) by (bit_vector);
}

/// A write whose payload is not as long as its declared size is outside the
/// domain of the mapping to filesystem calls (and of dispatch on a live
/// session): it is an input violation, never a filesystem error.
pub proof fn lemma_write_payload_mismatch(op: Operation)
    requires
        op matches Operation::Write { size, data, .. } && data@.len() != size as int,
    ensures
        !op.spec_payload_consistent(),
{
}

/// On a live session a forget request becomes a call that expects no reply.
pub proof fn lemma_forget_without_reply<FS>(
    se: Session<FS>,
    req: Request,
    not_implemented: i32,
    protocol_error: i32,
)
    requires
        se.wf(),
        se.initialized,
        !se.destroyed,
        req.operation is Forget,
    ensures
        req.spec_dispatch(se.initialized, se.destroyed, not_implemented, protocol_error) matches Dispatch::Call(call) && call is Forget
            && !call.spec_expects_reply(),
{
}

} // verus!
