use monoio_driver::iocp::{Event, POLL_ABORT, POLL_RECEIVE, POLL_SEND};
use monoio_driver::ready::{
    Direction, Interest, Ready, CANCELED, READABLE, READ_ALL, READ_CANCELED, READ_CLOSED,
    WRITABLE, WRITE_ALL, WRITE_CANCELED, WRITE_CLOSED,
};

#[test]
fn ready_constants_have_their_bits() {
    assert_eq!(Ready::empty().0, 0);
    assert_eq!(Ready::readable().0, READABLE);
    assert_eq!(Ready::writable().0, WRITABLE);
    assert_eq!(Ready::read_closed().0, READ_CLOSED);
    assert_eq!(Ready::write_closed().0, WRITE_CLOSED);
    assert_eq!(Ready::read_canceled().0, READ_CANCELED);
    assert_eq!(Ready::write_canceled().0, WRITE_CANCELED);
    assert_eq!(Ready::canceled().0, READ_CANCELED | WRITE_CANCELED);
    assert_eq!(Ready::read_all().0, READABLE | READ_CLOSED | READ_CANCELED);
    assert_eq!(Ready::write_all().0, WRITABLE | WRITE_CLOSED | WRITE_CANCELED);
    assert_eq!(CANCELED, 0b11_0000);
}

#[test]
fn ready_predicates() {
    assert!(Ready::empty().is_empty());
    assert!(!Ready::readable().is_empty());
    assert!(Ready::readable().is_readable());
    assert!(Ready::read_closed().is_readable());
    assert!(Ready::read_canceled().is_readable());
    assert!(!Ready::writable().is_readable());
    assert!(Ready::writable().is_writable());
    assert!(Ready::write_closed().is_writable());
    assert!(!Ready::read_closed().is_writable());
    assert!(Ready::read_closed().is_read_closed());
    assert!(!Ready::readable().is_read_closed());
    assert!(Ready::write_closed().is_write_closed());
    assert!(!Ready::writable().is_write_closed());
    assert!(Ready::write_canceled().is_canceled());
    assert!(Ready::read_all().is_canceled());
    assert!(!(Ready::readable() | Ready::writable()).is_canceled());
}

#[test]
fn ready_set_operations() {
    let rw = Ready::readable() | Ready::writable();
    assert_eq!(rw.0, 0b11);
    assert!(rw.contains(Ready::readable()));
    assert!(rw.contains(Ready::writable()));
    assert!(rw.contains(rw));
    assert!(!Ready::readable().contains(rw));
    assert_eq!((rw & Ready::writable()).0, WRITABLE);
    assert_eq!((rw - Ready::readable()).0, WRITABLE);
    assert_eq!((rw - rw).0, 0);
    let mut r = Ready::empty();
    r |= Ready::read_closed();
    r |= Ready::write_closed();
    assert_eq!(r.0, READ_CLOSED | WRITE_CLOSED);
}

#[test]
fn ready_from_flags_sets_one_bit_per_flag() {
    assert_eq!(Ready::from_flags(false, false, false, false).0, 0);
    assert_eq!(Ready::from_flags(true, false, false, false).0, READABLE);
    assert_eq!(Ready::from_flags(false, true, false, false).0, WRITABLE);
    assert_eq!(Ready::from_flags(true, false, true, false).0, READABLE | READ_CLOSED);
    assert_eq!(Ready::from_flags(true, true, true, true).0, 0b1111);
}

#[test]
fn ready_from_iocp_event() {
    let mut ev = Event::new(3);
    assert_eq!(Ready::from_mio(&ev).0, 0);
    ev.set_readable();
    assert_eq!(Ready::from_mio(&ev).0, READABLE);
    ev.set_writable();
    assert_eq!(Ready::from_mio(&ev).0, READABLE | WRITABLE);
    let aborted = Event { flags: POLL_ABORT, data: 0 };
    assert_eq!(Ready::from_mio(&aborted).0, 0b1111);
    let send_only = Event { flags: POLL_SEND, data: 0 };
    assert_eq!(Ready::from_mio(&send_only).0, WRITABLE);
    let recv_only = Event { flags: POLL_RECEIVE, data: 0 };
    assert!(Ready::from_mio(&recv_only).is_readable());
}

#[test]
fn direction_masks_split_the_bits() {
    assert_eq!(Direction::Read.mask().0, READ_ALL);
    assert_eq!(Direction::Write.mask().0, WRITE_ALL);
    assert_eq!((Direction::Read.mask() & Direction::Write.mask()).0, 0);
    assert_eq!((Direction::Read.mask() | Direction::Write.mask()).0, 0b11_1111);
}

#[test]
fn interest_adds_and_tests() {
    let r = Interest::readable();
    let w = Interest::writable();
    assert_eq!(r.bits(), 0b0001);
    assert_eq!(w.bits(), 0b0010);
    assert_eq!(Interest::aio().bits(), 0b0100);
    assert_eq!(Interest::lio().bits(), 0b1000);
    assert_eq!(Interest::priority().bits(), 0b1_0000);
    let rw = r.add(w);
    assert_eq!(rw.bits(), 0b0011);
    assert!(rw.is_readable() && rw.is_writable());
    assert!(r.is_readable() && !r.is_writable());
    assert!(rw == (r | w));
    let mut i = r;
    i |= w;
    assert!(i == rw);
}
