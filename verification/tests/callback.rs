use lean_rs::abi::string;
use lean_rs::callback::{
    decode_string_payload, CallbackRegistry, LeanCallbackFlow, LeanCallbackHandle,
    LeanCallbackStatus, LeanProgressTick, LeanStringEvent, TrampolineStep, TrampolineTable,
    PAYLOAD_PROGRESS_TICK, PAYLOAD_STRING,
};
use lean_rs::error::panic_guard::CallbackRun;
use lean_rs::error::PanicPayload;
use lean_rs::runtime::obj::Obj;
use lean_rs::LeanError;

#[test]
fn callback_handle_is_send_sync() {
    fn assert_send_sync<T: Send + Sync>() {}
    assert_send_sync::<LeanCallbackHandle<LeanProgressTick>>();
    assert_send_sync::<LeanCallbackHandle<LeanStringEvent>>();
}

#[test]
fn status_bytes_round_trip() {
    assert_eq!(LeanCallbackStatus::from_abi(0), Some(LeanCallbackStatus::Completed));
    assert_eq!(LeanCallbackStatus::from_abi(1), Some(LeanCallbackStatus::StaleHandle),);
    assert_eq!(LeanCallbackStatus::from_abi(2), Some(LeanCallbackStatus::Panic));
    assert_eq!(LeanCallbackStatus::from_abi(3), Some(LeanCallbackStatus::WrongPayload));
    assert_eq!(LeanCallbackStatus::from_abi(4), Some(LeanCallbackStatus::Stopped));
    assert_eq!(LeanCallbackStatus::from_abi(5), None);
    for value in 0..5 {
        assert_eq!(LeanCallbackStatus::from_abi(value).expect("known").as_abi(), value);
    }
    assert_eq!(
        LeanCallbackStatus::Stopped.description(),
        "Rust callback asked Lean to stop the callback loop"
    );
}

#[test]
fn flow_is_explicit() {
    assert_ne!(LeanCallbackFlow::Continue, LeanCallbackFlow::Stop);
}

fn status<P>(step: TrampolineStep<P>) -> LeanCallbackStatus {
    match step {
        TrampolineStep::Done(status) => status,
        TrampolineStep::Invoke(_) => panic!("nothing is to be invoked"),
    }
}

#[test]
fn handles_have_fresh_nonzero_ids_and_their_own_trampoline() {
    let mut registry = CallbackRegistry::new();
    let table = TrampolineTable { progress: 10, string: 20 };
    let progress = LeanCallbackHandle::<LeanProgressTick>::register(&mut registry).expect("register");
    let text = LeanCallbackHandle::<LeanStringEvent>::register(&mut registry).expect("register");
    assert_eq!(progress.abi_handle(), 1);
    assert_eq!(text.abi_handle(), 2);
    assert_eq!(progress.abi_parts(&table), (1, 10));
    assert_eq!(text.abi_trampoline(&table), 20);
}

#[test]
fn trampolines_dispatch_by_tag_liveness_and_kind() {
    let mut registry = CallbackRegistry::new();
    let progress = LeanCallbackHandle::<LeanProgressTick>::register(&mut registry).expect("register");
    let text = LeanCallbackHandle::<LeanStringEvent>::register(&mut registry).expect("register");
    let (p, t) = (progress.abi_handle(), text.abi_handle());
    let payload = string::from_str("hi");

    match registry.progress_trampoline(p, PAYLOAD_PROGRESS_TICK, 3, 9) {
        TrampolineStep::Invoke(tick) => assert_eq!(tick, LeanProgressTick { current: 3, total: 9 }),
        TrampolineStep::Done(status) => panic!("unexpected {status:?}"),
    }
    match registry.string_trampoline(t, PAYLOAD_STRING, Some(&payload)) {
        TrampolineStep::Invoke(event) => assert_eq!(event.value, "hi"),
        TrampolineStep::Done(status) => panic!("unexpected {status:?}"),
    }
    let wrong = LeanCallbackStatus::WrongPayload;
    assert_eq!(status(registry.progress_trampoline(p, PAYLOAD_STRING, 0, 0)), wrong);
    assert_eq!(status(registry.progress_trampoline(t, PAYLOAD_PROGRESS_TICK, 0, 0)), wrong);
    assert_eq!(status(registry.string_trampoline(p, PAYLOAD_STRING, Some(&payload))), wrong);
    assert_eq!(status(registry.string_trampoline(t, PAYLOAD_STRING, None)), wrong);
    assert_eq!(status(registry.string_trampoline(t, PAYLOAD_STRING, Some(&Obj::Scalar(1)))), wrong);
    let stale = LeanCallbackStatus::StaleHandle;
    assert_eq!(status(registry.progress_trampoline(99, PAYLOAD_PROGRESS_TICK, 0, 0)), stale);

    progress.release(&mut registry);
    assert_eq!(status(registry.progress_trampoline(p, PAYLOAD_PROGRESS_TICK, 0, 0)), stale);
    assert!(matches!(
        registry.string_trampoline(t, PAYLOAD_STRING, Some(&payload)),
        TrampolineStep::Invoke(_)
    ));
}

#[test]
fn runs_are_judged_and_panics_are_kept() {
    let mut registry = CallbackRegistry::new();
    let handle = LeanCallbackHandle::<LeanProgressTick>::register(&mut registry).expect("register");
    let id = handle.abi_handle();
    let go_on = CallbackRun::Returned(Ok(LeanCallbackFlow::Continue));
    assert_eq!(registry.finish(id, go_on), LeanCallbackStatus::Completed);
    let stop = CallbackRun::Returned(Ok(LeanCallbackFlow::Stop));
    assert_eq!(registry.finish(id, stop), LeanCallbackStatus::Stopped);
    assert!(handle.last_error(&registry).is_none());
    let boom = CallbackRun::Panicked(PanicPayload::StaticStr("boom"));
    assert_eq!(registry.finish(id, boom), LeanCallbackStatus::Panic);
    match handle.last_error(&registry) {
        Some(LeanError::Host(failure)) => assert_eq!(failure.message(), "boom"),
        other => panic!("unexpected {other:?}"),
    }
    let gone = CallbackRun::Panicked(PanicPayload::Opaque);
    assert_eq!(registry.finish(77, gone), LeanCallbackStatus::Panic);
    assert_eq!(CallbackRegistry::poisoned().code().as_str(), "lean_rs.internal");
}

#[test]
fn the_last_error_is_the_most_recent_panic() {
    let mut registry = CallbackRegistry::new();
    let handle = LeanCallbackHandle::<LeanProgressTick>::register(&mut registry).expect("register");
    let other = LeanCallbackHandle::<LeanStringEvent>::register(&mut registry).expect("register");
    let id = handle.abi_handle();
    for text in ["first", "second"] {
        registry.finish(id, CallbackRun::Panicked(PanicPayload::StaticStr(text)));
        registry.finish(other.abi_handle(), CallbackRun::Panicked(PanicPayload::Opaque));
        registry.finish(id, CallbackRun::Returned(Ok(LeanCallbackFlow::Continue)));
    }
    other.release(&mut registry);
    match handle.last_error(&registry) {
        Some(LeanError::Host(failure)) => assert_eq!(failure.message(), "second"),
        other => panic!("unexpected {other:?}"),
    }
}

#[test]
fn string_payloads_are_decoded_strictly() {
    assert_eq!(decode_string_payload(Some(&string::from_str("a\0b"))), Some("a\0b".to_owned()));
    assert_eq!(decode_string_payload(Some(&Obj::Str(vec![0xC0]))), None);
    assert_eq!(decode_string_payload(Some(&Obj::Array(vec![]))), None);
    assert_eq!(decode_string_payload(None), None);
}
