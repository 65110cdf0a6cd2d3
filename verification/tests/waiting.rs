use demikernel::fail::Fail;
use demikernel::libos::{
    LibOS, MemoryCall, MemoryLibOS, NetworkCall, NetworkLibOS, Reply, Request, SchedulerHandle,
};
use demikernel::time::{Duration, Instant, SystemTime};
use demikernel::types::{demi_opcode_t, demi_qr_value_t, demi_qresult_t, QToken};
use demikernel::wait::{WaitStep, Waiter};

fn net() -> LibOS {
    LibOS::NetworkLibOS(NetworkLibOS::Catnip)
}

fn poll() -> Request {
    Request::Network(NetworkCall::Poll)
}

fn schedule(qt: u64) -> Request {
    Request::Network(NetworkCall::Schedule { qt: QToken(qt) })
}

fn pack(handle: SchedulerHandle, qt: u64) -> Request {
    Request::Network(NetworkCall::PackResult { handle, qt: QToken(qt) })
}

fn pending(key: u64) -> SchedulerHandle {
    SchedulerHandle { key, completed: false }
}

fn completed(key: u64) -> SchedulerHandle {
    SchedulerHandle { key, completed: true }
}

fn at(nanos: u128) -> Instant {
    Instant { since_origin: Duration { nanos } }
}

fn wall(nanos: u128) -> SystemTime {
    SystemTime { since_epoch: Duration { nanos } }
}

fn pushed(qt: u64) -> demi_qresult_t {
    demi_qresult_t {
        qr_opcode: demi_opcode_t::DEMI_OPC_PUSH,
        qr_qd: 4,
        qr_qt: qt,
        qr_value: demi_qr_value_t::Empty,
    }
}

/// Checks that the wait asks for `request`, and answers it with `reply`.
fn told(step: WaitStep<Waiter>, request: Request, reply: Reply) -> WaitStep<Waiter> {
    match step {
        WaitStep::Perform(waiter, asked) => {
            assert_eq!(asked, request);
            assert!(waiter.expects(&reply));
            waiter.resume(reply)
        },
        ended => panic!("the wait has ended: {:?}", ended),
    }
}

/// One cycle over `qts` in which no operation has completed.
fn idle_cycle(step: WaitStep<Waiter>, qts: &[u64]) -> WaitStep<Waiter> {
    let mut step = told(step, poll(), Reply::Polled);
    for &qt in qts {
        step = told(step, schedule(qt), Reply::Handle(Ok(pending(qt))));
        step = told(step, Request::TakeKey(pending(qt)), Reply::KeyTaken);
    }
    step
}

#[test]
fn wait_any_returns_the_lowest_index_of_the_completed_tokens() {
    let qts = [QToken(5), QToken(6), QToken(7)];
    let step = net().wait_any(&qts, None);
    let step = told(step, poll(), Reply::Polled);
    let step = told(step, schedule(5), Reply::Handle(Ok(pending(5))));
    let step = told(step, Request::TakeKey(pending(5)), Reply::KeyTaken);
    // The operations behind 6 and 7 have both completed; 7 is never looked at.
    let step = told(step, schedule(6), Reply::Handle(Ok(completed(6))));
    let step = told(step, pack(completed(6), 6), Reply::QResult(Ok(pushed(6))));
    assert_eq!(step, WaitStep::Ready(1, pushed(6)));
}

#[test]
fn wait_any_looks_at_every_token_in_every_cycle() {
    let qts = [QToken(5), QToken(6), QToken(7)];
    let step = net().wait_any(&qts, None);
    let step = idle_cycle(step, &[5, 6, 7]);
    let step = idle_cycle(step, &[5, 6, 7]);
    let step = told(step, poll(), Reply::Polled);
    let step = told(step, schedule(5), Reply::Handle(Ok(completed(5))));
    let step = told(step, pack(completed(5), 5), Reply::QResult(Ok(pushed(5))));
    assert_eq!(step, WaitStep::Ready(0, pushed(5)));
}

#[test]
fn wait_any_on_the_last_token() {
    let qts = [QToken(5), QToken(6)];
    let step = net().wait_any(&qts, None);
    let step = told(step, poll(), Reply::Polled);
    let step = told(step, schedule(5), Reply::Handle(Ok(pending(5))));
    let step = told(step, Request::TakeKey(pending(5)), Reply::KeyTaken);
    let step = told(step, schedule(6), Reply::Handle(Ok(completed(6))));
    let step = told(step, pack(completed(6), 6), Reply::QResult(Ok(pushed(6))));
    assert_eq!(step, WaitStep::Ready(1, pushed(6)));
}

#[test]
fn wait_any_on_no_token_times_out_at_once() {
    assert_eq!(net().wait_any(&[], None), WaitStep::TimedOut);
    assert_eq!(net().wait_any(&[], Some(Duration { nanos: 1_000_000 })), WaitStep::TimedOut);
}

#[test]
fn wait_returns_index_zero() {
    let step = net().wait(QToken(9), None);
    let step = told(step, poll(), Reply::Polled);
    let step = told(step, schedule(9), Reply::Handle(Ok(completed(9))));
    let step = told(step, pack(completed(9), 9), Reply::QResult(Ok(pushed(9))));
    assert_eq!(step, WaitStep::Ready(0, pushed(9)));
}

#[test]
fn wait_on_a_memory_backend_asks_the_memory_backend() {
    let step = LibOS::MemoryLibOS(MemoryLibOS::Catmem).wait(QToken(9), None);
    let step = told(step, Request::Memory(MemoryCall::Poll), Reply::Polled);
    let step = told(
        step,
        Request::Memory(MemoryCall::Schedule { qt: QToken(9) }),
        Reply::Handle(Ok(completed(9))),
    );
    let step = told(
        step,
        Request::Memory(MemoryCall::PackResult { handle: completed(9), qt: QToken(9) }),
        Reply::QResult(Ok(pushed(9))),
    );
    assert_eq!(step, WaitStep::Ready(0, pushed(9)));
}

#[test]
fn wait_without_timeout_never_times_out() {
    let mut step = net().wait(QToken(9), None);
    for _ in 0..1000 {
        step = idle_cycle(step, &[9]);
    }
    // Still waiting, and still not asking for the time.
    let step = told(step, poll(), Reply::Polled);
    assert!(matches!(step, WaitStep::Perform(_, _)));
}

#[test]
fn wait_with_timeout_reads_the_clock_at_the_start_and_after_each_cycle() {
    let step = net().wait(QToken(9), Some(Duration { nanos: 10_000_000 }));
    let step = told(step, Request::Now, Reply::Instant(at(1_000)));
    let step = idle_cycle(step, &[9]);
    // 10 ms have passed: that is not more than the timeout.
    let step = told(step, Request::Now, Reply::Instant(at(10_001_000)));
    let step = idle_cycle(step, &[9]);
    // One nanosecond more.
    let step = told(step, Request::Now, Reply::Instant(at(10_001_001)));
    assert_eq!(step, WaitStep::TimedOut);
}

#[test]
fn wait_with_zero_timeout_gives_up_after_the_first_cycle_that_takes_time() {
    let step = net().wait(QToken(9), Some(Duration { nanos: 0 }));
    let step = told(step, Request::Now, Reply::Instant(at(50)));
    let step = idle_cycle(step, &[9]);
    let step = told(step, Request::Now, Reply::Instant(at(50)));
    let step = idle_cycle(step, &[9]);
    let step = told(step, Request::Now, Reply::Instant(at(51)));
    assert_eq!(step, WaitStep::TimedOut);
}

#[test]
fn wait_with_timeout_survives_a_clock_that_runs_backwards() {
    let step = net().wait(QToken(9), Some(Duration { nanos: 5 }));
    let step = told(step, Request::Now, Reply::Instant(at(1_000)));
    let step = idle_cycle(step, &[9]);
    let step = told(step, Request::Now, Reply::Instant(at(10)));
    assert!(matches!(step, WaitStep::Perform(_, _)));
}

#[test]
fn wait_completes_in_the_cycle_before_its_timeout_is_checked() {
    let step = net().wait(QToken(9), Some(Duration { nanos: 5 }));
    let step = told(step, Request::Now, Reply::Instant(at(0)));
    let step = told(step, poll(), Reply::Polled);
    let step = told(step, schedule(9), Reply::Handle(Ok(completed(9))));
    let step = told(step, pack(completed(9), 9), Reply::QResult(Ok(pushed(9))));
    assert_eq!(step, WaitStep::Ready(0, pushed(9)));
}

#[test]
fn timedwait_with_a_deadline_in_the_past_times_out_after_one_cycle() {
    let step = net().timedwait(QToken(9), Some(wall(1_000)));
    let step = idle_cycle(step, &[9]);
    let step = told(step, Request::SystemNow, Reply::SystemTime(wall(2_000)));
    assert_eq!(step, WaitStep::TimedOut);
}

#[test]
fn timedwait_gives_up_when_the_clock_reaches_the_deadline() {
    let step = net().timedwait(QToken(9), Some(wall(1_000)));
    let step = idle_cycle(step, &[9]);
    let step = told(step, Request::SystemNow, Reply::SystemTime(wall(999)));
    let step = idle_cycle(step, &[9]);
    let step = told(step, Request::SystemNow, Reply::SystemTime(wall(1_000)));
    assert_eq!(step, WaitStep::TimedOut);
}

#[test]
fn timedwait_returns_an_operation_that_has_completed_before_the_deadline_is_checked() {
    let step = net().timedwait(QToken(9), Some(wall(0)));
    let step = told(step, poll(), Reply::Polled);
    let step = told(step, schedule(9), Reply::Handle(Ok(completed(9))));
    let step = told(step, pack(completed(9), 9), Reply::QResult(Ok(pushed(9))));
    assert_eq!(step, WaitStep::Ready(0, pushed(9)));
}

#[test]
fn timedwait_without_a_deadline_times_out_after_one_cycle() {
    let step = net().timedwait(QToken(9), None);
    let step = idle_cycle(step, &[9]);
    assert_eq!(step, WaitStep::TimedOut);
}

#[test]
fn a_token_that_the_scheduler_does_not_know_ends_the_wait() {
    let qts = [QToken(5), QToken(6)];
    let step = net().wait_any(&qts, None);
    let step = told(step, poll(), Reply::Polled);
    let step = told(step, schedule(5), Reply::Handle(Ok(pending(5))));
    let step = told(step, Request::TakeKey(pending(5)), Reply::KeyTaken);
    let step = told(
        step,
        schedule(6),
        Reply::Handle(Err(Fail::new(libc::EBADF, "invalid queue token"))),
    );
    assert_eq!(step, WaitStep::Failed(Fail::new(libc::EBADF, "invalid queue token")));
}

#[test]
fn a_result_that_cannot_be_packed_ends_the_wait() {
    let step = net().wait(QToken(9), None);
    let step = told(step, poll(), Reply::Polled);
    let step = told(step, schedule(9), Reply::Handle(Ok(completed(9))));
    let step = told(
        step,
        pack(completed(9), 9),
        Reply::QResult(Err(Fail::new(libc::ECANCELED, "operation was cancelled"))),
    );
    assert_eq!(step, WaitStep::Failed(Fail::new(libc::ECANCELED, "operation was cancelled")));
}

#[test]
fn a_wait_expects_only_the_answer_to_its_request() {
    let waiter = match net().wait(QToken(9), None) {
        WaitStep::Perform(waiter, _) => waiter,
        ended => panic!("the wait has ended: {:?}", ended),
    };
    assert!(waiter.expects(&Reply::Polled));
    assert!(!waiter.expects(&Reply::KeyTaken));
    assert!(!waiter.expects(&Reply::Handle(Ok(pending(9)))));
    assert!(!waiter.expects(&Reply::QResult(Ok(pushed(9)))));
    assert!(!waiter.expects(&Reply::Instant(at(0))));
    assert!(!waiter.expects(&Reply::SystemTime(wall(0))));
    assert!(!waiter.expects(&Reply::Unit(Ok(()))));
}
