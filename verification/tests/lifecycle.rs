use std::sync::atomic::{AtomicUsize, Ordering};
use std::sync::Arc;
use std::task::{Wake, Waker};

use monoio_driver::lifecycle::{DropOutcome, Ops};
use monoio_driver::task::PollResult;

struct Counter(AtomicUsize);

impl Wake for Counter {
    fn wake(self: Arc<Self>) {
        self.0.fetch_add(1, Ordering::SeqCst);
    }
}

fn counting_waker() -> (Arc<Counter>, Waker) {
    let c = Arc::new(Counter(AtomicUsize::new(0)));
    (c.clone(), Waker::from(c))
}

#[test]
fn completion_before_poll_is_handed_out() {
    let (_, w) = counting_waker();
    let mut ops: Ops<()> = Ops::new();
    let i = ops.insert(false);
    let outcome = ops.complete(i, Ok(5), 2);
    assert_eq!(outcome.to_close, None);
    assert!(outcome.woken.is_none());
    match ops.poll_op(i, &w) {
        PollResult::Ready(meta) => {
            assert_eq!(meta.flags, 2);
            let m = meta.result.unwrap();
            assert_eq!(m.fd(), 5);
            assert_eq!(m.fd_to_close(), None);
        }
        PollResult::Pending => panic!("completed operation must be ready"),
    }
    assert!(ops.slab.get(i).is_none());
}

#[test]
fn poll_before_completion_waits_and_is_woken() {
    let (count, w) = counting_waker();
    let mut ops: Ops<()> = Ops::new();
    let i = ops.insert(true);
    assert!(matches!(ops.poll_op(i, &w), PollResult::Pending));
    assert!(matches!(ops.poll_op(i, &w), PollResult::Pending));
    assert_eq!(count.0.load(Ordering::SeqCst), 0);
    let outcome = ops.complete(i, Ok(9), 0);
    assert_eq!(outcome.to_close, None);
    assert_eq!(count.0.load(Ordering::SeqCst), 0);
    outcome.woken.expect("the waiting task is handed back").wake();
    assert_eq!(count.0.load(Ordering::SeqCst), 1);
    match ops.poll_op(i, &w) {
        PollResult::Ready(meta) => {
            let m = meta.result.unwrap();
            assert_eq!(m.fd_to_close(), Some(9));
            assert_eq!(m.into_inner(), 9);
        }
        PollResult::Pending => panic!("completed operation must be ready"),
    }
}

#[test]
fn errors_are_handed_out() {
    let (_, w) = counting_waker();
    let mut ops: Ops<()> = Ops::new();
    let i = ops.insert(false);
    ops.complete(i, Err(std::io::Error::from_raw_os_error(104)), 0);
    match ops.poll_op(i, &w) {
        PollResult::Ready(meta) => assert_eq!(meta.result.unwrap_err().raw_os_error(), Some(104)),
        PollResult::Pending => panic!("completed operation must be ready"),
    }
}

#[test]
fn dropped_operation_closes_its_descriptor_on_completion() {
    let mut ops: Ops<Vec<u8>> = Ops::new();
    let i = ops.insert(true);
    let mut data = Some(vec![1, 2, 3]);
    assert_eq!(ops.drop_op(i, &mut data), DropOutcome::InFlight);
    assert!(data.is_none());
    assert!(ops.slab.get(i).is_some());
    assert_eq!(ops.complete(i, Ok(11), 0).to_close, Some(11));
    assert!(ops.slab.get(i).is_none());
}

#[test]
fn dropping_a_completed_operation_finishes_it() {
    let mut ops: Ops<u8> = Ops::new();
    let i = ops.insert(true);
    ops.complete(i, Ok(6), 0);
    let mut data = Some(1u8);
    assert_eq!(ops.drop_op(i, &mut data), DropOutcome::Finished(Some(6)));
    assert_eq!(data, Some(1));
    assert!(ops.slab.get(i).is_none());
    let j = ops.insert(false);
    ops.complete(j, Ok(6), 0);
    assert_eq!(ops.drop_op(j, &mut data), DropOutcome::Finished(None));
}
