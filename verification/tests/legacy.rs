use monoio_driver::scheduled_io::Woken;
use monoio_driver::legacy::{legacy_poll_timeout, PollTimeout};
use monoio_driver::legacy::poll_outcome;
use std::cell::Cell;
use std::sync::atomic::{AtomicUsize, Ordering};
use std::sync::Arc;
use std::task::{Wake, Waker};

use monoio_driver::legacy::{IoDispatch, ECANCELED};
use monoio_driver::maybe_fd::MaybeFd;
use monoio_driver::ready::{Direction, Ready};
use monoio_driver::task::PollResult;

struct Counter(AtomicUsize);

impl Wake for Counter {
    fn wake(self: Arc<Self>) {
        self.0.fetch_add(1, Ordering::SeqCst);
    }
}

fn counting_waker() -> (Arc<Counter>, Waker) {
    let c = Arc::new(Counter(AtomicUsize::new(0)));
    (c.clone(), Waker::from(c))
}

fn would_block() -> std::io::Error {
    std::io::Error::from(std::io::ErrorKind::WouldBlock)
}

fn wake(w: Woken) {
    if let Some(r) = w.reader {
        r.wake();
    }
    if let Some(wr) = w.writer {
        wr.wake();
    }
}

#[test]
fn register_keeps_the_slot_on_success_only() {
    let mut d = IoDispatch::new();
    let t = d.register(|_| Ok(())).unwrap();
    assert!(d.slab.get(t).is_some());
    let e = d.register(|_| Err(std::io::Error::from_raw_os_error(9))).unwrap_err();
    assert_eq!(e.raw_os_error(), Some(9));
    let t2 = d.register(|token| {
        assert_ne!(token, t);
        Ok(())
    });
    assert!(t2.is_ok());
}

#[test]
fn deregister_frees_the_slot_on_success_only() {
    let mut d = IoDispatch::new();
    let t = d.register(|_| Ok(())).unwrap();
    assert!(d.deregister(t, || Err(std::io::Error::from_raw_os_error(2))).is_err());
    assert!(d.slab.get(t).is_some());
    assert!(d.deregister(t, || Ok(())).is_ok());
    assert!(d.slab.get(t).is_none());
}

#[test]
fn dispatched_readiness_wakes_and_is_polled() {
    let (count, w) = counting_waker();
    let mut d = IoDispatch::new();
    let t = d.register(|_| Ok(())).unwrap();
    let p = d.poll_syscall(&w, t, Direction::Read, || Ok(MaybeFd::new_non_fd(1)));
    assert!(matches!(p, PollResult::Pending));
    wake(d.dispatch(t, Ready::writable()));
    assert_eq!(count.0.load(Ordering::SeqCst), 0);
    wake(d.dispatch(t, Ready::readable()));
    assert_eq!(count.0.load(Ordering::SeqCst), 1);
    match d.poll_syscall(&w, t, Direction::Read, || Ok(MaybeFd::new_non_fd(8))) {
        PollResult::Ready(meta) => assert_eq!(meta.result.unwrap().fd(), 8),
        PollResult::Pending => panic!("readable resource must run the syscall"),
    }
    wake(d.dispatch(t + 100, Ready::readable()));
}

#[test]
fn would_block_clears_readiness_and_waits() {
    let (count, w) = counting_waker();
    let mut d = IoDispatch::new();
    let t = d.register(|_| Ok(())).unwrap();
    wake(d.dispatch(t, Ready::readable()));
    let p = d.poll_syscall(&w, t, Direction::Read, || Err(would_block()));
    assert!(matches!(p, PollResult::Pending));
    let calls = Cell::new(0);
    let p = d.poll_syscall(&w, t, Direction::Read, || {
        calls.set(calls.get() + 1);
        Ok(MaybeFd::zero())
    });
    assert!(matches!(p, PollResult::Pending));
    assert_eq!(calls.get(), 0);
    wake(d.dispatch(t, Ready::readable()));
    assert_eq!(count.0.load(Ordering::SeqCst), 1);
}

#[test]
fn other_errors_complete_the_syscall() {
    let (_, w) = counting_waker();
    let mut d = IoDispatch::new();
    let t = d.register(|_| Ok(())).unwrap();
    wake(d.dispatch(t, Ready::writable()));
    match d.poll_syscall(&w, t, Direction::Write, || Err(std::io::Error::from_raw_os_error(32))) {
        PollResult::Ready(meta) => assert_eq!(meta.result.unwrap_err().raw_os_error(), Some(32)),
        PollResult::Pending => panic!("error must complete"),
    }
}

#[test]
fn poll_op_without_interest_calls_at_once() {
    let (_, w) = counting_waker();
    let mut d = IoDispatch::new();
    match d.poll_op(None, &w, || Ok(MaybeFd::new_fd(3))) {
        PollResult::Ready(meta) => {
            assert_eq!(meta.flags, 0);
            assert_eq!(meta.result.unwrap().into_inner(), 3)
        }
        PollResult::Pending => panic!("no interest means no wait"),
    }
}

#[test]
fn poll_op_retries_after_would_block() {
    let (_, w) = counting_waker();
    let mut d = IoDispatch::new();
    let t = d.register(|_| Ok(())).unwrap();
    let calls = Cell::new(0);
    let p = d.poll_op(Some((Direction::Read, t)), &w, || {
        calls.set(calls.get() + 1);
        Ok(MaybeFd::zero())
    });
    assert!(matches!(p, PollResult::Pending));
    assert_eq!(calls.get(), 0);
    wake(d.dispatch(t, Ready::readable()));
    let p = d.poll_op(Some((Direction::Read, t)), &w, || {
        calls.set(calls.get() + 1);
        Err(would_block())
    });
    assert!(matches!(p, PollResult::Pending));
    assert_eq!(calls.get(), 1);
    wake(d.dispatch(t, Ready::read_closed()));
    match d.poll_op(Some((Direction::Read, t)), &w, || Ok(MaybeFd::new_non_fd(0))) {
        PollResult::Ready(meta) => assert_eq!(meta.result.unwrap().fd(), 0),
        PollResult::Pending => panic!("closed resource must run the syscall"),
    }
}

#[test]
fn cancelled_wait_ends_with_ecanceled() {
    let (count, w) = counting_waker();
    let mut d = IoDispatch::new();
    let t = d.register(|_| Ok(())).unwrap();
    let p = d.poll_op(Some((Direction::Write, t)), &w, || Ok(MaybeFd::zero()));
    assert!(matches!(p, PollResult::Pending));
    wake(d.cancel_op(t, Direction::Write));
    assert_eq!(count.0.load(Ordering::SeqCst), 1);
    match d.poll_op(Some((Direction::Write, t)), &w, || Ok(MaybeFd::zero())) {
        PollResult::Ready(meta) => {
            assert_eq!(meta.result.unwrap_err().raw_os_error(), Some(ECANCELED))
        }
        PollResult::Pending => panic!("cancelled wait must end"),
    }
    let p = d.poll_op(Some((Direction::Write, t)), &w, || Ok(MaybeFd::zero()));
    assert!(matches!(p, PollResult::Pending));
}

#[test]
fn settle_call_decides_on_would_block() {
    let mut d = IoDispatch::new();
    let t = d.register(|_| Ok(())).unwrap();
    wake(d.dispatch(t, Ready::readable()));
    assert!(d
        .settle_call(t, Direction::Read, Err(would_block()), true)
        .is_none());
    let done = d.settle_call(t, Direction::Read, Ok(MaybeFd::new_non_fd(2)), false);
    assert_eq!(done.unwrap().result.unwrap().fd(), 2);
}

#[test]
fn interrupted_poll_counts_as_no_events() {
    assert!(poll_outcome(Ok(())).is_ok());
    assert!(poll_outcome(Err(std::io::ErrorKind::Interrupted.into())).is_ok());
    let e = poll_outcome(Err(std::io::Error::from_raw_os_error(9))).unwrap_err();
    assert_eq!(e.raw_os_error(), Some(9));
}

#[test]
fn park_waits_only_without_foreign_work() {
    assert_eq!(legacy_poll_timeout(false, true), PollTimeout::Zero);
    assert_eq!(legacy_poll_timeout(false, false), PollTimeout::Zero);
    assert_eq!(legacy_poll_timeout(true, true), PollTimeout::Given);
    assert_eq!(legacy_poll_timeout(true, false), PollTimeout::Forever);
}
