use gobject_ffi::{
    convert_params, finish, run_fallible_wrapper, run_mut_ref_wrapper, sync_call, AsyncBody,
    CValue, CancelToken, ErrorInfo, MarshalType, NativeHeap, OpOutcome, OperationError, RVal,
    Scheduler, TaskOutcome,
};

fn body(suspensions: usize, outcome: OpOutcome) -> AsyncBody {
    AsyncBody { suspensions, outcome }
}

fn cancel_at(slot: usize) -> CancelToken {
    CancelToken { signal_at: Some(slot) }
}

fn never() -> CancelToken {
    CancelToken { signal_at: None }
}

#[test]
fn parameter_conversion_in_order() {
    let heap = NativeHeap::new();
    let types = vec![MarshalType::I32, MarshalType::Bool, MarshalType::U8];
    let args = vec![CValue::Int(9), CValue::Int(0), CValue::Uint(200)];
    let vals = convert_params(&heap, &types, &args);
    assert_eq!(vals, vec![RVal::I32(9), RVal::Bool(false), RVal::U8(200)]);
}

#[test]
fn fallible_wrapper_relays_success() {
    let mut heap = NativeHeap::new();
    let (ret, err) = run_fallible_wrapper(&mut heap, &MarshalType::I32, Ok(RVal::I32(12)), true);
    assert_eq!(ret, CValue::Int(12));
    assert_eq!(err, None);
}

#[test]
fn fallible_void_failure_populates_slot_and_returns_zero() {
    // A fallible method with an empty success payload, failing: the
    // out-parameter holds the fresh owned error object, and the return
    // value is the value-copy sentinel, zero.
    let mut heap = NativeHeap::new();
    let e = ErrorInfo { domain: 7, code: 13, message: b"no such key".to_vec() };
    let (ret, err) =
        run_fallible_wrapper(&mut heap, &MarshalType::Unit, Err(e.clone()), true);
    assert_eq!(ret, CValue::Int(0));
    assert_eq!(err, Some(e));
    assert_eq!(heap.len(), 0);
}

#[test]
fn fallible_failure_without_slot_is_still_signaled() {
    let mut heap = NativeHeap::new();
    let e = ErrorInfo { domain: 1, code: 2, message: b"boom".to_vec() };
    let (ret, err) = run_fallible_wrapper(&mut heap, &MarshalType::Text, Err(e), false);
    assert_eq!(ret, CValue::NullPtr);
    assert_eq!(err, None);
}

#[test]
fn mut_ref_param_writes_through_and_returns_independently() {
    let mut storage: i32 = 5;
    let r = run_mut_ref_wrapper(&mut storage, 10, 42);
    assert_eq!(storage, 15);
    assert_eq!(r, 42);
}

#[test]
fn sync_equals_start_plus_finish() {
    for (b, c) in [
        (body(2, OpOutcome::Done(7)), never()),
        (body(0, OpOutcome::Done(-3)), never()),
        (body(1, OpOutcome::Failed(9)), never()),
        (body(3, OpOutcome::Done(5)), cancel_at(1)),
        (body(3, OpOutcome::Done(5)), cancel_at(9)),
    ] {
        // The blocking wrapper.
        let blocking = sync_call(b, c, true);
        // Start with a callback that forwards the completion-result to
        // finish, on the same inputs.
        let mut sched = Scheduler::new();
        let id = sched.start(b, c);
        sched.run();
        let cr = sched.take_result(id);
        let forwarded = finish(cr, true);
        assert_eq!(blocking, forwarded);
    }
}

#[test]
fn exactly_once_completion_for_concurrent_starts() {
    let mut sched = Scheduler::new();
    let a = sched.start(body(2, OpOutcome::Done(10)), never());
    let b = sched.start(body(0, OpOutcome::Done(20)), never());
    let c = sched.start(body(5, OpOutcome::Failed(3)), never());
    // No callback fires before start returns.
    assert!(sched.log.is_empty());
    sched.run();
    // Each of the three completion callbacks fired exactly once.
    for id in [a, b, c] {
        assert_eq!(sched.log.iter().filter(|x| **x == id).count(), 1);
    }
    assert_eq!(sched.log.len(), 3);
    // Each finish call returns the result matching its own start's
    // input, never another's.
    let cr_a = sched.take_result(a);
    let cr_b = sched.take_result(b);
    let cr_c = sched.take_result(c);
    assert_eq!(finish(cr_a, true), (CValue::Int(10), None));
    assert_eq!(finish(cr_b, true), (CValue::Int(20), None));
    assert_eq!(
        finish(cr_c, true),
        (CValue::Int(-1), Some(OperationError::Code(3)))
    );
}

#[test]
fn cancellation_before_first_suspension_point_cancels() {
    let b = body(4, OpOutcome::Done(99));
    let (ret, err) = sync_call(b, cancel_at(0), true);
    assert_eq!(ret, CValue::Int(-1));
    assert_eq!(err, Some(OperationError::Cancelled));
}

#[test]
fn cancellation_after_last_suspension_point_is_not_retroactive() {
    // Signaled after the operation's last suspension point: the normal
    // outcome stands, successful or failed alike.
    let b = body(2, OpOutcome::Done(41));
    let (ret, err) = sync_call(b, cancel_at(3), true);
    assert_eq!(ret, CValue::Int(41));
    assert_eq!(err, None);

    let b = body(2, OpOutcome::Failed(8));
    let (ret, err) = sync_call(b, cancel_at(3), true);
    assert_eq!(ret, CValue::Int(-1));
    assert_eq!(err, Some(OperationError::Code(8)));
}

#[test]
fn cancellation_at_a_middle_suspension_point_cancels() {
    let mut sched = Scheduler::new();
    let id = sched.start(body(3, OpOutcome::Done(1)), cancel_at(2));
    sched.run();
    let cr = sched.take_result(id);
    assert_eq!(cr.unwrap(), TaskOutcome::Cancelled);
}

#[test]
fn completion_result_is_consumed_by_finish() {
    let mut sched = Scheduler::new();
    let id = sched.start(body(0, OpOutcome::Done(5)), never());
    sched.run();
    let cr = sched.take_result(id);
    // `finish` consumes the container by move; the scheduler no longer
    // holds it either.
    let (ret, err) = finish(cr, false);
    assert_eq!(ret, CValue::Int(5));
    assert_eq!(err, None);
}
