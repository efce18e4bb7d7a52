use monoio_driver::uring::{submit_step, SubmitStep};
use std::task::Waker;

use monoio_driver::lifecycle::DropOutcome;
use monoio_driver::task::PollResult;
use monoio_driver::uring::{
    needs_flush, park_plan, resultify, ParkPlan, UringInner, EVENTFD_USERDATA,
    MIN_REVERSED_USERDATA, TIMEOUT_USERDATA,
};

#[test]
fn resultify_decodes_res() {
    assert_eq!(resultify(0).unwrap(), 0);
    assert_eq!(resultify(42).unwrap(), 42);
    assert_eq!(resultify(-11).unwrap_err().raw_os_error(), Some(11));
    assert_eq!(resultify(-125).unwrap_err().raw_os_error(), Some(125));
}

#[test]
fn park_plans() {
    assert_eq!(
        park_plan(true, false, true),
        ParkPlan { space: 2, install_eventfd: true, install_timeout: true, wait: true }
    );
    assert_eq!(
        park_plan(true, true, false),
        ParkPlan { space: 0, install_eventfd: false, install_timeout: false, wait: true }
    );
    assert_eq!(
        park_plan(false, false, true),
        ParkPlan { space: 0, install_eventfd: false, install_timeout: false, wait: false }
    );
}

#[test]
fn flushes_only_when_full() {
    assert!(!needs_flush(0, 4, 2));
    assert!(!needs_flush(2, 4, 2));
    assert!(needs_flush(3, 4, 2));
    assert!(!needs_flush(usize::MAX, usize::MAX, 0));
}

#[test]
fn driver_entries_complete_no_operation() {
    let mut u: UringInner<()> = UringInner::new();
    u.eventfd_installed = true;
    assert_eq!(u.complete_entry(TIMEOUT_USERDATA, 0, 0).to_close, None);
    assert!(u.eventfd_installed);
    assert_eq!(u.complete_entry(EVENTFD_USERDATA, 8, 0).to_close, None);
    assert!(!u.eventfd_installed);
    assert_eq!(MIN_REVERSED_USERDATA, u64::MAX - 2);
}

#[test]
fn entries_complete_their_operation() {
    let w = Waker::noop();
    let mut u: UringInner<()> = UringInner::new();
    let i = u.new_op(false);
    assert!(matches!(u.poll_op(i, w), PollResult::Pending));
    assert_eq!(u.complete_entry(i as u64, 17, 3).to_close, None);
    match u.poll_op(i, w) {
        PollResult::Ready(meta) => {
            assert_eq!(meta.flags, 3);
            assert_eq!(meta.result.unwrap().fd(), 17);
        }
        PollResult::Pending => panic!("completed operation must be ready"),
    }
}

#[test]
fn dropped_entries() {
    let mut u: UringInner<u8> = UringInner::new();
    let mut data = Some(1u8);
    assert_eq!(u.drop_op(usize::MAX, &mut data), None);
    assert_eq!(u.drop_op(5, &mut data), None);
    assert_eq!(data, Some(1));
    let i = u.new_op(true);
    assert_eq!(u.drop_op(i, &mut data), Some(DropOutcome::InFlight));
    assert_eq!(data, None);
    assert_eq!(u.complete_entry(i as u64, 23, 0).to_close, Some(23));
    let j = u.new_op(true);
    assert_eq!(u.complete_entry(j as u64, -9, 0).to_close, None);
    assert_eq!(u.drop_op(j, &mut data), Some(DropOutcome::Finished(None)));
}

#[test]
fn submit_retries_only_when_busy() {
    assert!(matches!(submit_step(Ok(3)), SubmitStep::Done));
    assert!(matches!(submit_step(Err(std::io::Error::other("busy"))), SubmitStep::Retry));
    assert!(matches!(
        submit_step(Err(std::io::ErrorKind::ResourceBusy.into())),
        SubmitStep::Retry
    ));
    match submit_step(Err(std::io::Error::from_raw_os_error(9))) {
        SubmitStep::Fail(e) => assert_eq!(e.raw_os_error(), Some(9)),
        _ => panic!("a bad descriptor is no retry"),
    }
}
