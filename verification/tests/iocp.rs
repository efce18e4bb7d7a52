use monoio_driver::iocp::{
    interests_to_afd_flags, iocp_resultify, needs_new_afd_group, CompletionEntry, Event, Syscall,
    ERROR_FLAGS, KNOWN_EVENTS, POLL_ABORT, POLL_ACCEPT, POLL_CONNECT_FAIL, POLL_DISCONNECT,
    POLL_RECEIVE, POLL_RECEIVE_EXPEDITED, POLL_SEND, READABLE_FLAGS, READ_CLOSED_FLAGS,
    WRITABLE_FLAGS, WRITE_CLOSED_FLAGS,
};
use monoio_driver::ready::Interest;

#[test]
fn composite_flags_have_their_values() {
    assert_eq!(KNOWN_EVENTS, 447);
    assert_eq!(READABLE_FLAGS, 409);
    assert_eq!(WRITABLE_FLAGS, 276);
    assert_eq!(ERROR_FLAGS, 256);
    assert_eq!(READ_CLOSED_FLAGS, 280);
    assert_eq!(WRITE_CLOSED_FLAGS, 272);
}

#[test]
fn event_tokens_and_flags() {
    let mut ev = Event::new(42);
    assert_eq!(ev.flags, 0);
    assert_eq!(ev.data, 42);
    assert_eq!(ev.token(), 42);
    assert!(!ev.is_readable() && !ev.is_writable());
    ev.set_readable();
    assert_eq!(ev.flags, POLL_RECEIVE);
    assert!(ev.is_readable());
    assert!(!ev.is_writable());
    ev.set_writable();
    assert_eq!(ev.flags, POLL_RECEIVE | POLL_SEND);
    assert!(ev.is_writable());
    assert_eq!(ev.data, 42);
}

#[test]
fn event_error_and_closed_tests() {
    let fail = Event { flags: POLL_CONNECT_FAIL, data: 1 };
    assert!(fail.is_error());
    assert!(fail.is_readable() && fail.is_writable());
    assert!(fail.is_read_closed() && fail.is_write_closed());
    let disconnect = Event { flags: POLL_DISCONNECT, data: 1 };
    assert!(disconnect.is_read_closed());
    assert!(!disconnect.is_write_closed());
    assert!(!disconnect.is_error());
    let urgent = Event { flags: POLL_RECEIVE_EXPEDITED, data: 1 };
    assert!(urgent.is_priority());
    assert!(!urgent.is_readable());
    let accept = Event { flags: POLL_ACCEPT, data: 1 };
    assert!(accept.is_readable() && !accept.is_writable());
    let abort = Event { flags: POLL_ABORT, data: 1 };
    assert!(abort.is_write_closed());
}

#[test]
fn completion_entries_round_trip() {
    let entry = CompletionEntry { bytes_transferred: 7, completion_key: 99 };
    let ev = Event::from_entry(&entry);
    assert_eq!(ev.flags, 7);
    assert_eq!(ev.data, 99);
    assert_eq!(ev.to_entry(), entry);
    let ev2 = Event { flags: 5, data: 1234 };
    assert_eq!(Event::from_entry(&ev2.to_entry()), ev2);
}

#[test]
fn afd_flags_for_interests() {
    assert_eq!(interests_to_afd_flags(Interest::readable()), 409);
    assert_eq!(interests_to_afd_flags(Interest::writable()), 276 | 256);
    assert_eq!(
        interests_to_afd_flags(Interest::readable().add(Interest::writable())),
        409 | 276
    );
    assert_eq!(interests_to_afd_flags(Interest::priority()), 0);
}

#[test]
fn afd_groups_grow_past_their_size() {
    assert!(needs_new_afd_group(0, 0));
    assert!(!needs_new_afd_group(1, 2));
    assert!(!needs_new_afd_group(3, 32));
    assert!(needs_new_afd_group(3, 33));
}

#[test]
fn iocp_results() {
    assert_eq!(iocp_resultify(Syscall::Accept, true, 5, 0).unwrap(), 5);
    let e = iocp_resultify(Syscall::Accept, false, 5, 0).unwrap_err();
    assert_eq!(e.raw_os_error(), Some(10050));
    assert_eq!(iocp_resultify(Syscall::Recv, false, 0, 12).unwrap(), 12);
    assert_eq!(iocp_resultify(Syscall::WsaSend, true, 9, 0).unwrap(), 0);
}
