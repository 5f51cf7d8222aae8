use async_fuse::operation::{InitIn, Operation};
use async_fuse::request::{Dispatch, FsCall, InitOut, Reply, Request, RequestHeader};
use async_fuse::session::{LoopStep, Session, BUFFER_SIZE, MAX_WRITE_SIZE};

const EIO: i32 = 5;
const ENOSYS: i32 = libc::ENOSYS;
const EPROTO: i32 = libc::EPROTO;

fn header(unique: u64, nodeid: u64) -> RequestHeader {
    RequestHeader { unique, nodeid, uid: 1000, gid: 100, pid: 42 }
}

fn req(nodeid: u64, operation: Operation) -> Request {
    Request::new(header(7, nodeid), operation)
}

fn init_arg(major: u32, minor: u32) -> InitIn {
    InitIn { major, minor, max_readahead: 131072, flags: 1 }
}

fn live_session() -> Session<()> {
    let mut se = Session::new((), String::from("/mnt/fs"));
    se.complete_init(init_arg(7, 8), Ok(()));
    se
}

#[test]
fn mount_init_lookup_destroy_getattr() {
    let mut se = Session::new((), String::from("/mnt/fs"));
    let arg = InitIn { major: 7, minor: 8, max_readahead: 131072, flags: 1 };
    match req(0, Operation::Init { arg }).dispatch(&mut se) {
        Dispatch::Init(a) => assert_eq!(a, arg),
        other => panic!("unexpected {:?}", other),
    }
    let reply = se.complete_init(arg, Ok(()));
    assert_eq!(
        reply,
        Reply::Init(InitOut {
            major: 7,
            minor: 40,
            max_readahead: 131072,
            flags: 1,
            max_write: 16 * 1024 * 1024,
        })
    );
    assert!(se.initialized);

    match req(1, Operation::Lookup { name: b"foo".to_vec() }).dispatch(&mut se) {
        Dispatch::Call(FsCall::Lookup { parent, name }) => {
            assert_eq!(parent, 1);
            assert_eq!(name, b"foo".to_vec());
        }
        other => panic!("unexpected {:?}", other),
    }

    assert!(matches!(req(1, Operation::Destroy).dispatch(&mut se), Dispatch::Destroy));
    assert!(se.destroyed);

    match req(1, Operation::GetAttr).dispatch(&mut se) {
        Dispatch::Reply(r) => assert_eq!(r, Reply::Error(EIO)),
        other => panic!("unexpected {:?}", other),
    }
    assert!(se.destroyed);
}

#[test]
fn operations_before_init_get_io_error() {
    let mut se = Session::new((), String::from("/mnt/fs"));
    for op in [
        Operation::GetAttr,
        Operation::Destroy,
        Operation::Forget { nlookup: 1 },
        Operation::Interrupt { unique: 3 },
        Operation::Lookup { name: b"x".to_vec() },
    ] {
        match req(1, op).dispatch(&mut se) {
            Dispatch::Reply(r) => assert_eq!(r, Reply::Error(EIO)),
            other => panic!("unexpected {:?}", other),
        }
        assert!(!se.initialized);
        assert!(!se.destroyed);
    }
}

#[test]
fn second_destroy_is_rejected() {
    let mut se = live_session();
    assert!(matches!(req(1, Operation::Destroy).dispatch(&mut se), Dispatch::Destroy));
    match req(1, Operation::Destroy).dispatch(&mut se) {
        Dispatch::Reply(r) => assert_eq!(r, Reply::Error(EIO)),
        other => panic!("unexpected {:?}", other),
    }
    assert!(se.destroyed);
}

#[test]
fn init_version_six_is_protocol_error() {
    let mut se = Session::new((), String::from("/mnt/fs"));
    for (major, minor) in [(6u32, 9u32), (7, 5), (5, 30)] {
        match req(0, Operation::Init { arg: init_arg(major, minor) }).dispatch(&mut se) {
            Dispatch::Reply(r) => assert_eq!(r, Reply::Error(EPROTO)),
            other => panic!("unexpected {:?}", other),
        }
        assert!(!se.initialized);
    }
}

#[test]
fn init_version_seven_six_is_accepted() {
    let mut se = Session::new((), String::from("/mnt/fs"));
    assert!(matches!(
        req(0, Operation::Init { arg: init_arg(7, 6) }).dispatch(&mut se),
        Dispatch::Init(_)
    ));
    assert!(!se.initialized);
    se.complete_init(init_arg(7, 6), Ok(()));
    assert!(se.initialized);
    assert_eq!((se.proto_major, se.proto_minor), (7, 6));
    // a later negotiation keeps the first version
    se.complete_init(init_arg(7, 31), Ok(()));
    assert!(se.initialized);
    assert_eq!((se.proto_major, se.proto_minor), (7, 6));
}

#[test]
fn init_hook_failure_is_passed_on() {
    let mut se = Session::new((), String::from("/mnt/fs"));
    let r = se.complete_init(init_arg(7, 8), Err(13));
    assert_eq!(r, Reply::Error(13));
    assert!(!se.initialized);
    assert_eq!((se.proto_major, se.proto_minor), (0, 0));
}

#[test]
fn init_flags_are_intersected() {
    let mut se = Session::new((), String::from("/mnt/fs"));
    let arg = InitIn { major: 7, minor: 12, max_readahead: 4096, flags: 0xffff_fffe };
    match se.complete_init(arg, Ok(())) {
        Reply::Init(out) => {
            assert_eq!(out.flags, 0);
            assert_eq!(out.max_readahead, 4096);
            assert_eq!(out.max_write as usize, MAX_WRITE_SIZE);
            assert_eq!((out.major, out.minor), (7, 40));
        }
        other => panic!("unexpected {:?}", other),
    }
    let arg = InitIn { major: 7, minor: 12, max_readahead: 1, flags: 0xffff_ffff };
    match se.complete_init(arg, Ok(())) {
        Reply::Init(out) => {
            assert_eq!(out.flags, 1);
            assert_eq!(out.max_write, 16777216);
        }
        other => panic!("unexpected {:?}", other),
    }
}

#[test]
fn interrupt_is_not_implemented() {
    let mut se = live_session();
    match req(1, Operation::Interrupt { unique: 9 }).dispatch(&mut se) {
        Dispatch::Reply(r) => assert_eq!(r, Reply::Error(ENOSYS)),
        other => panic!("unexpected {:?}", other),
    }
    assert!(!se.destroyed);
}

#[test]
fn forget_expects_no_reply() {
    let mut se = live_session();
    match req(5, Operation::Forget { nlookup: 3 }).dispatch(&mut se) {
        Dispatch::Call(call) => {
            assert!(!call.expects_reply());
            assert!(matches!(call, FsCall::Forget { ino: 5, nlookup: 3 }));
        }
        other => panic!("unexpected {:?}", other),
    }
    match req(5, Operation::GetAttr).dispatch(&mut se) {
        Dispatch::Call(call) => assert!(call.expects_reply()),
        other => panic!("unexpected {:?}", other),
    }
}

#[test]
fn read_errors_are_classified() {
    assert_eq!(Session::<()>::read_error_step(Some(2)), LoopStep::Continue);
    assert_eq!(Session::<()>::read_error_step(Some(4)), LoopStep::Continue);
    assert_eq!(Session::<()>::read_error_step(Some(11)), LoopStep::Continue);
    assert_eq!(Session::<()>::read_error_step(Some(19)), LoopStep::Finish);
    assert_eq!(Session::<()>::read_error_step(Some(5)), LoopStep::Fail);
    assert_eq!(Session::<()>::read_error_step(Some(13)), LoopStep::Fail);
    assert_eq!(Session::<()>::read_error_step(None), LoopStep::Fail);
}

#[test]
fn new_session_state() {
    let se = Session::new(17u8, String::from("/mnt/data"));
    assert_eq!(se.mountpoint(), "/mnt/data");
    assert_eq!(se.filesystem, 17);
    assert_eq!((se.proto_major, se.proto_minor), (0, 0));
    assert!(!se.initialized && !se.destroyed);
    assert_eq!(BUFFER_SIZE, 16 * 1024 * 1024 + 4096);
}

#[test]
fn request_accessors() {
    let r = Request::new(
        RequestHeader { unique: 99, nodeid: 3, uid: 1000, gid: 100, pid: 4242 },
        Operation::StatFs,
    );
    assert_eq!(r.unique(), 99);
    assert_eq!(r.nodeid(), 3);
    assert_eq!(r.uid(), 1000);
    assert_eq!(r.gid(), 100);
    assert_eq!(r.pid(), 4242);
}

#[test]
fn dispatch_uses_given_codes() {
    let mut se = live_session();
    match req(1, Operation::Interrupt { unique: 9 }).dispatch_with_codes(&mut se, 90, 86) {
        Dispatch::Reply(r) => assert_eq!(r, Reply::Error(90)),
        other => panic!("unexpected {:?}", other),
    }
    match req(0, Operation::Init { arg: init_arg(6, 30) }).dispatch_with_codes(&mut se, 90, 86) {
        Dispatch::Reply(r) => assert_eq!(r, Reply::Error(86)),
        other => panic!("unexpected {:?}", other),
    }
    match req(1, Operation::GetAttr).dispatch_with_codes(&mut se, 90, 86) {
        Dispatch::Call(call) => assert!(matches!(call, FsCall::GetAttr { ino: 1 })),
        other => panic!("unexpected {:?}", other),
    }
    assert!(se.initialized && !se.destroyed);
}
