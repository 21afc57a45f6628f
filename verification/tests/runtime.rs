use lean_rs::error::PanicPayload;
use lean_rs::runtime::init::{read_num_threads_env, InitRun, LeanRuntime, RuntimeCell};
use lean_rs::runtime::thread::{AttachDepth, LeanThreadGuard};
use lean_rs::{HostStage, LeanError, LeanResult};

fn init(cell: &mut RuntimeCell, run: Option<InitRun>, depth: &mut AttachDepth) -> LeanResult<LeanRuntime> {
    LeanRuntime::init(cell, run, true, "4.29.1", depth)
}

#[test]
fn init_returns_an_ok_borrow() {
    let mut cell = RuntimeCell::new();
    let mut depth = AttachDepth::new();
    assert!(cell.needs_run());
    init(&mut cell, Some(InitRun::Completed), &mut depth).expect("first init must succeed");
    assert!(!cell.needs_run());
    assert_eq!(depth.depth(), 1);
}

#[test]
fn init_is_idempotent_across_repeated_calls() {
    let mut cell = RuntimeCell::new();
    let mut depth = AttachDepth::new();
    init(&mut cell, Some(InitRun::Completed), &mut depth).expect("first init must succeed");
    init(&mut cell, None, &mut depth).expect("second init must succeed");
    let late = Some(InitRun::Panicked(PanicPayload::StaticStr("too late")));
    init(&mut cell, late, &mut depth).expect("third init must succeed");
    assert_eq!(depth.depth(), 1);
}

#[test]
fn failed_init_is_replayed() {
    let mut cell = RuntimeCell::new();
    let mut depth = AttachDepth::new();
    let boom = Some(InitRun::Panicked(PanicPayload::StaticStr("boom")));
    for run in [boom, None, Some(InitRun::Completed)] {
        match init(&mut cell, run, &mut depth) {
            Err(LeanError::Host(failure)) => {
                assert_eq!(failure.stage(), HostStage::RuntimeInit);
                assert_eq!(failure.message(), "boom");
            }
            other => panic!("unexpected {other:?}"),
        }
    }
    assert_eq!(depth.depth(), 0);
}

#[test]
fn unsupported_toolchain_is_refused() {
    let mut cell = RuntimeCell::new();
    let mut depth = AttachDepth::new();
    let r = LeanRuntime::init(&mut cell, Some(InitRun::Completed), false, "0.0.0", &mut depth);
    match r {
        Err(LeanError::Host(failure)) => {
            assert_eq!(failure.stage(), HostStage::RuntimeInit);
            assert!(failure.message().contains("0.0.0"));
        }
        other => panic!("unexpected {other:?}"),
    }
    assert_eq!(depth.depth(), 0);
}

#[test]
fn worker_thread_can_attach_and_finalize() {
    let mut cell = RuntimeCell::new();
    let mut depth = AttachDepth::new();
    let runtime = init(&mut cell, Some(InitRun::Completed), &mut depth).expect("init");
    let mut worker = AttachDepth::new();
    let guard = LeanThreadGuard::attach(&runtime, &mut worker);
    assert_eq!(worker.depth(), 1);
    guard.detach(&mut worker);
    assert_eq!(worker.depth(), 0);
}

#[test]
fn debug_assert_attached_panics_on_unattached_worker() {
    let worker = AttachDepth::new();
    let message = worker.debug_assert_attached("tests::unattached").expect("must fire");
    assert!(message.starts_with("lean-rs: tests::unattached invoked on a thread that is not attached"));
}

#[test]
fn attach_guard_satisfies_debug_assert_attached() {
    let mut cell = RuntimeCell::new();
    let mut worker = AttachDepth::new();
    let runtime = init(&mut cell, Some(InitRun::Completed), &mut worker).expect("init");
    let _guard = LeanThreadGuard::attach(&runtime, &mut worker);
    assert_eq!(worker.debug_assert_attached("tests::attached"), None);
}

#[test]
fn nested_attach_guards_balance_depth() {
    let mut cell = RuntimeCell::new();
    let mut main = AttachDepth::new();
    let runtime = init(&mut cell, Some(InitRun::Completed), &mut main).expect("init");
    let mut worker = AttachDepth::new();
    let outer = LeanThreadGuard::attach(&runtime, &mut worker);
    {
        let inner = LeanThreadGuard::attach(&runtime, &mut worker);
        assert_eq!(worker.debug_assert_attached("nested outer + inner"), None);
        inner.detach(&mut worker);
    }
    assert_eq!(worker.debug_assert_attached("nested outer only"), None);
    outer.detach(&mut worker);
    assert_eq!(worker.depth(), 0);
    worker.mark_calling_thread_permitted();
    worker.mark_calling_thread_permitted();
    assert_eq!(worker.depth(), 1);
}

#[test]
fn interleaved_guards_keep_the_floor() {
    let mut cell = RuntimeCell::new();
    let mut depth = AttachDepth::new();
    let runtime = init(&mut cell, Some(InitRun::Completed), &mut depth).expect("init");
    let first = LeanThreadGuard::attach(&runtime, &mut depth);
    let second = LeanThreadGuard::attach(&runtime, &mut depth);
    first.detach(&mut depth);
    assert_eq!(depth.depth(), 2);
    init(&mut cell, None, &mut depth).expect("init again");
    let third = LeanThreadGuard::attach(&runtime, &mut depth);
    second.detach(&mut depth);
    third.detach(&mut depth);
    assert_eq!(depth.depth(), 1);
    assert_eq!(depth.debug_assert_attached("after all guards"), None);
}

#[test]
fn worker_count_is_a_positive_integer() {
    assert_eq!(read_num_threads_env(None), None);
    assert_eq!(read_num_threads_env(Some("4")), Some(4));
    assert_eq!(read_num_threads_env(Some("  12\n")), Some(12));
    assert_eq!(read_num_threads_env(Some("+3")), Some(3));
    assert_eq!(read_num_threads_env(Some("4294967295")), Some(u32::MAX));
    for bad in ["", "0", "-1", "four", "4294967296", "99999999999999999999", "+", "1 2", "0x4"] {
        assert_eq!(read_num_threads_env(Some(bad)), None, "{bad:?}");
    }
}
