use monoio_driver::iocp::{READABLE_FLAGS, READ_CLOSED_FLAGS, ERROR_FLAGS};
use monoio_driver::ready::Interest;
use monoio_driver::sock_state::{PollerError, SocketRegistration};
use monoio_driver::sock_state::{
    get_base_socket, SIO_BASE_HANDLE, SIO_BSP_HANDLE, SIO_BSP_HANDLE_POLL, SIO_BSP_HANDLE_SELECT,
};
use monoio_driver::iocp::{
    Event, POLL_ABORT, POLL_CONNECT_FAIL, POLL_LOCAL_CLOSE, POLL_RECEIVE, POLL_SEND,
};
use monoio_driver::sock_state::{
    AfdPollRequest, PollStart, SockPollStatus, SockState, UpdateAction, ERROR_INVALID_HANDLE, ERROR_IO_PENDING,
    STATUS_CANCELLED,
};

fn interested(events: u32) -> SockState {
    let mut s = SockState::new(77);
    s.set_event(Event { flags: events, data: 5 });
    s
}

#[test]
fn new_socket_is_idle() {
    let s = SockState::new(77);
    assert_eq!(s.base_socket, 77);
    assert_eq!(s.poll_status, SockPollStatus::Idle);
    assert_eq!(s.user_evts, 0);
    assert_eq!(s.pending_evts, 0);
    assert!(!s.delete_pending);
    assert_eq!(s.error, None);
}

#[test]
fn set_event_always_watches_failures() {
    let mut s = SockState::new(1);
    let more = s.set_event(Event { flags: POLL_RECEIVE, data: 9 });
    assert!(more);
    assert_eq!(s.user_evts, POLL_RECEIVE | POLL_CONNECT_FAIL | POLL_ABORT);
    assert_eq!(s.user_data, 9);
    s.pending_evts = s.user_evts;
    assert!(!s.set_event(Event { flags: POLL_RECEIVE, data: 9 }));
    assert!(s.set_event(Event { flags: POLL_SEND, data: 9 }));
}

#[test]
fn idle_update_starts_a_poll() {
    let mut s = interested(POLL_RECEIVE);
    s.error = Some(3);
    let a = s.begin_update();
    assert_eq!(
        a,
        UpdateAction::StartPoll(AfdPollRequest {
            exclusive: 0,
            number_of_handles: 1,
            timeout: i64::MAX,
            handle: 77,
            status: 0,
            events: s.user_evts | POLL_LOCAL_CLOSE,
        })
    );
    assert_eq!(s.error, None);
    assert_eq!(s.finish_poll(Err(ERROR_IO_PENDING)), PollStart::Started);
    assert_eq!(s.poll_status, SockPollStatus::Pending);
    assert_eq!(s.pending_evts, s.user_evts);
}

#[test]
fn poll_start_outcomes() {
    let mut ok = interested(POLL_RECEIVE);
    assert_eq!(ok.finish_poll(Ok(true)), PollStart::Started);
    let mut closed = interested(POLL_RECEIVE);
    assert_eq!(closed.finish_poll(Err(ERROR_INVALID_HANDLE)), PollStart::SocketClosed);
    assert!(closed.delete_pending);
    assert_eq!(closed.poll_status, SockPollStatus::Idle);
    let mut failed = interested(POLL_RECEIVE);
    assert_eq!(failed.finish_poll(Err(87)), PollStart::Failed(87));
    assert_eq!(failed.error, Some(87));
    assert_eq!(failed.poll_status, SockPollStatus::Idle);
}

#[test]
fn pending_update_cancels_only_for_new_events() {
    let mut s = interested(POLL_RECEIVE);
    s.finish_poll(Ok(false));
    assert_eq!(s.begin_update(), UpdateAction::Nothing);
    s.set_event(Event { flags: POLL_RECEIVE | POLL_SEND, data: 5 });
    assert_eq!(s.begin_update(), UpdateAction::Cancel);
    assert_eq!(s.finish_cancel(Err(5)), Err(5));
    assert_eq!(s.error, Some(5));
    assert_eq!(s.poll_status, SockPollStatus::Pending);
    assert_eq!(s.finish_cancel(Ok(())), Ok(()));
    assert_eq!(s.poll_status, SockPollStatus::Cancelled);
    assert_eq!(s.pending_evts, 0);
    assert_eq!(s.begin_update(), UpdateAction::Nothing);
}

#[test]
fn completion_reports_requested_events_once() {
    let mut s = interested(POLL_RECEIVE);
    s.finish_poll(Ok(false));
    let e = s.feed_event(0, 1, POLL_RECEIVE | POLL_SEND);
    assert_eq!(e, Some(Event { data: 5, flags: POLL_RECEIVE }));
    assert_eq!(s.poll_status, SockPollStatus::Idle);
    assert_eq!(s.pending_evts, 0);
    assert_eq!(s.user_evts, POLL_CONNECT_FAIL | POLL_ABORT);
    assert_eq!(s.feed_event(0, 1, POLL_RECEIVE), None);
}

#[test]
fn completion_statuses() {
    let mut cancelled = interested(POLL_RECEIVE);
    assert_eq!(cancelled.feed_event(STATUS_CANCELLED, 1, POLL_RECEIVE), None);
    let mut failed = interested(POLL_RECEIVE);
    assert_eq!(
        failed.feed_event(-5, 1, 0),
        Some(Event { data: 5, flags: POLL_CONNECT_FAIL })
    );
    let mut no_handles = interested(POLL_RECEIVE);
    assert_eq!(no_handles.feed_event(0, 0, POLL_RECEIVE), None);
    let mut closed = interested(POLL_RECEIVE);
    assert_eq!(closed.feed_event(0, 1, POLL_LOCAL_CLOSE | POLL_RECEIVE), None);
    assert!(closed.delete_pending);
    let mut deleted = interested(POLL_RECEIVE);
    deleted.mark_delete(Ok(()));
    assert_eq!(deleted.feed_event(0, 1, POLL_RECEIVE), None);
}

#[test]
fn mark_delete_cancels_a_pending_poll_once() {
    let mut s = interested(POLL_RECEIVE);
    s.finish_poll(Ok(false));
    s.mark_delete(Ok(()));
    assert!(s.delete_pending);
    assert_eq!(s.poll_status, SockPollStatus::Cancelled);
    let before = s;
    s.mark_delete(Err(1));
    assert_eq!(s, before);
    let mut t = interested(POLL_RECEIVE);
    t.finish_poll(Ok(false));
    t.mark_delete(Err(1));
    assert!(t.delete_pending);
    assert_eq!(t.poll_status, SockPollStatus::Pending);
}

#[test]
fn cancel_outcomes() {
    let mut s = interested(POLL_SEND);
    s.finish_poll(Ok(false));
    assert_eq!(s.cancel(Err(2)), Err(2));
    assert_eq!(s.poll_status, SockPollStatus::Pending);
    assert_eq!(s.error, None);
    assert_eq!(s.cancel(Ok(())), Ok(()));
    assert_eq!(s.poll_status, SockPollStatus::Cancelled);
}

#[test]
fn base_socket_prefers_base_handle() {
    // The base-handle ioctl answers: its answer is taken, even when equal.
    assert_eq!(get_base_socket(5, |raw, _| Ok(raw)), Ok(5));
    assert_eq!(get_base_socket(5, |_, _| Ok(40)), Ok(40));
    // A layered provider breaks it: the first alternative that names
    // another socket wins, in order.
    let layered = |raw: u64, ioctl: u32| -> Result<u64, i32> {
        if ioctl == SIO_BASE_HANDLE {
            Err(10038)
        } else if ioctl == SIO_BSP_HANDLE_SELECT {
            Ok(raw)
        } else if ioctl == SIO_BSP_HANDLE_POLL {
            Ok(81)
        } else {
            Ok(82)
        }
    };
    assert_eq!(get_base_socket(5, layered), Ok(81));
    let only_bsp = |raw: u64, ioctl: u32| -> Result<u64, i32> {
        if ioctl == SIO_BSP_HANDLE {
            Ok(raw + 1)
        } else if ioctl == SIO_BASE_HANDLE {
            Err(10038)
        } else {
            Err(10022)
        }
    };
    assert_eq!(get_base_socket(5, only_bsp), Ok(6));
    // Nothing better: the first error code comes back.
    let none = |raw: u64, ioctl: u32| -> Result<u64, i32> {
        if ioctl == SIO_BASE_HANDLE {
            Err(10038)
        } else {
            Ok(raw)
        }
    };
    assert_eq!(get_base_socket(5, none), Err(10038));
}

#[test]
fn registration_is_refused_twice_and_when_missing() {
    let mut reg = SocketRegistration::new();
    assert!(matches!(reg.deregister(), Err(PollerError::NotFound)));
    assert!(matches!(reg.reregister(3, Interest::readable(), |_, _| Ok(())), Err(PollerError::NotFound)));
    // A failed start leaves the socket unregistered.
    let r = reg.register(7, Interest::readable(), || Ok(4), |_, _| Err(std::io::Error::other("x")));
    assert!(matches!(r, Err(PollerError::Io(_))));
    assert_eq!(reg.sock, None);
    let mut seen = None;
    let r = reg.register(7, Interest::readable(), || Ok(4), |k, ev| {
        seen = Some((k, ev));
        Ok(())
    });
    assert_eq!(r.unwrap(), 4);
    let (k, ev) = seen.unwrap();
    assert_eq!(k, 4);
    assert_eq!(ev, Event { flags: READABLE_FLAGS | READ_CLOSED_FLAGS | ERROR_FLAGS, data: 7 });
    assert_eq!((reg.sock, reg.token), (Some(4), 7));
    assert!(matches!(
        reg.register(8, Interest::writable(), || Ok(5), |_, _| Ok(())),
        Err(PollerError::AlreadyExists)
    ));
    assert!(reg.reregister(9, Interest::writable(), |_, _| Ok(())).is_ok());
    assert_eq!((reg.sock, reg.token), (Some(4), 9));
    assert_eq!(reg.deregister().unwrap(), 4);
    assert_eq!(reg.sock, None);
}
