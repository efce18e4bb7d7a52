use monoio_driver::op::settle_poll_add;
use monoio_driver::op::{connect_result, settle_connect};
use std::io;
use monoio_driver::op::{op_canceller, poll_add_interest, splice_interest, OpCanceller, SpliceDirection};
use monoio_driver::ready::Direction;

#[test]
fn cancellers() {
    assert_eq!(
        op_canceller(true, Some((Direction::Read, 4)), 9),
        OpCanceller { index: 4, direction: Some(Direction::Read) }
    );
    assert_eq!(op_canceller(true, None, 9), OpCanceller { index: 0, direction: None });
    assert_eq!(
        op_canceller(false, Some((Direction::Write, 4)), 9),
        OpCanceller { index: 9, direction: None }
    );
}

#[test]
fn interests_of_poll_and_splice() {
    assert_eq!(poll_add_interest(true, Some(2)), Some((Direction::Read, 2)));
    assert_eq!(poll_add_interest(false, Some(2)), Some((Direction::Write, 2)));
    assert_eq!(poll_add_interest(true, None), None);
    assert_eq!(splice_interest(SpliceDirection::FromPipe, Some(1), Some(2)), Some((Direction::Write, 2)));
    assert_eq!(splice_interest(SpliceDirection::ToPipe, Some(1), Some(2)), Some((Direction::Read, 1)));
    assert_eq!(splice_interest(SpliceDirection::ToPipe, None, Some(2)), None);
}

#[test]
fn connect_in_progress_is_success() {
    let in_progress = libc::EINPROGRESS;
    assert_eq!(settle_connect(Ok(0), None, in_progress, 7).unwrap(), 7);
    assert_eq!(
        settle_connect(Err(io::Error::from_raw_os_error(in_progress)), Some(in_progress), in_progress, 7)
            .unwrap(),
        7
    );
    let refused = settle_connect(Err(io::Error::from_raw_os_error(111)), Some(111), in_progress, 7);
    assert_eq!(refused.unwrap_err().raw_os_error(), Some(111));

    assert_eq!(connect_result(Ok(0), in_progress, 9).unwrap(), 9);
    assert_eq!(connect_result(Err(io::Error::from_raw_os_error(in_progress)), in_progress, 9).unwrap(), 9);
    let failed = connect_result(Err(io::Error::from_raw_os_error(111)), in_progress, 9);
    assert_eq!(failed.unwrap_err().raw_os_error(), Some(111));
    let other = connect_result(Err(io::Error::other("no code")), in_progress, 9);
    assert!(other.is_err());
    // Another platform's code for a connect in progress (36) is taken as given.
    assert_eq!(connect_result(Err(io::Error::from_raw_os_error(36)), 36, 9).unwrap(), 9);
    assert!(connect_result(Err(io::Error::from_raw_os_error(36)), 115, 9).is_err());
}

#[test]
fn poll_add_results() {
    assert_eq!(settle_poll_add(None).unwrap().fd(), 1);
    assert_eq!(settle_poll_add(Some(Ok(1))).unwrap().fd(), 1);
    let e = settle_poll_add(Some(Ok(0))).unwrap_err();
    assert_eq!(e.kind(), io::ErrorKind::WouldBlock);
    assert_eq!(e.raw_os_error(), None);
    let e = settle_poll_add(Some(Err(io::Error::from_raw_os_error(9)))).unwrap_err();
    assert_eq!(e.raw_os_error(), Some(9));
}
