use monoio_driver::scheduled_io::Woken;
use std::sync::atomic::{AtomicUsize, Ordering};
use std::sync::Arc;
use std::task::{Wake, Waker};

use monoio_driver::ready::{Direction, Ready};
use monoio_driver::scheduled_io::ScheduledIo;
use monoio_driver::task::PollResult;

struct Counter(AtomicUsize);

impl Wake for Counter {
    fn wake(self: Arc<Self>) {
        self.0.fetch_add(1, Ordering::SeqCst);
    }
}

fn wake(w: Woken) {
    if let Some(r) = w.reader {
        r.wake();
    }
    if let Some(wr) = w.writer {
        wr.wake();
    }
}

#[test]
fn readiness_is_polled_by_direction() {
    let w = Waker::noop();
    let mut s = ScheduledIo::default();
    assert!(matches!(s.poll_readiness(w, Direction::Write), PollResult::Pending));
    s.set_writable();
    match s.poll_readiness(w, Direction::Write) {
        PollResult::Ready(r) => assert_eq!(r, Ready::writable()),
        PollResult::Pending => panic!("writable"),
    }
    assert!(matches!(s.poll_readiness(w, Direction::Read), PollResult::Pending));
    s.set_readiness(|r| r | Ready::readable() | Ready::write_closed());
    match s.poll_readiness(w, Direction::Write) {
        PollResult::Ready(r) => assert_eq!(r, Ready::writable() | Ready::write_closed()),
        PollResult::Pending => panic!("writable"),
    }
    s.clear_readiness(Direction::Write.mask());
    assert!(matches!(s.poll_readiness(w, Direction::Write), PollResult::Pending));
    assert!(matches!(s.poll_readiness(w, Direction::Read), PollResult::Ready(_)));
}

#[test]
fn wake_wakes_the_matching_direction_once() {
    let reader = Arc::new(Counter(AtomicUsize::new(0)));
    let writer = Arc::new(Counter(AtomicUsize::new(0)));
    let rw = Waker::from(reader.clone());
    let ww = Waker::from(writer.clone());
    let mut s = ScheduledIo::new();
    s.set_waker(&rw, Direction::Read);
    s.set_waker(&ww, Direction::Write);
    wake(s.wake(Ready::read_closed()));
    assert_eq!(reader.0.load(Ordering::SeqCst), 1);
    assert_eq!(writer.0.load(Ordering::SeqCst), 0);
    wake(s.wake(Ready::readable()));
    assert_eq!(reader.0.load(Ordering::SeqCst), 1);
    wake(s.wake(Ready::write_canceled()));
    assert_eq!(writer.0.load(Ordering::SeqCst), 1);
}
