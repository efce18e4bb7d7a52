//! Events of the IOCP backend: the AFD poll flags, the events that a
//! completion port hands back, and the poll state of one socket.
use vstd::prelude::*;

use crate::maybe_fd::{io_error_from_raw_os_error, os_error_code_of};
use crate::ready::Interest;

verus! {

pub const POLL_RECEIVE: u32 = 0b0_0000_0001;

pub const POLL_RECEIVE_EXPEDITED: u32 = 0b0_0000_0010;

pub const POLL_SEND: u32 = 0b0_0000_0100;

pub const POLL_DISCONNECT: u32 = 0b0_0000_1000;

pub const POLL_ABORT: u32 = 0b0_0001_0000;

pub const POLL_LOCAL_CLOSE: u32 = 0b0_0010_0000;

/// Reported on every event where a connection is connected, not only the
/// first time, so it is never asked for.
pub const POLL_CONNECT: u32 = 0b0_0100_0000;

pub const POLL_ACCEPT: u32 = 0b0_1000_0000;

pub const POLL_CONNECT_FAIL: u32 = 0b1_0000_0000;

pub const KNOWN_EVENTS: u32 = POLL_RECEIVE | POLL_RECEIVE_EXPEDITED | POLL_SEND | POLL_DISCONNECT
    | POLL_ABORT | POLL_LOCAL_CLOSE | POLL_ACCEPT | POLL_CONNECT_FAIL;

pub const READABLE_FLAGS: u32 = POLL_RECEIVE | POLL_DISCONNECT | POLL_ACCEPT | POLL_ABORT
    | POLL_CONNECT_FAIL;

pub const WRITABLE_FLAGS: u32 = POLL_SEND | POLL_ABORT | POLL_CONNECT_FAIL;

pub const ERROR_FLAGS: u32 = POLL_CONNECT_FAIL;

pub const READ_CLOSED_FLAGS: u32 = POLL_DISCONNECT | POLL_ABORT | POLL_CONNECT_FAIL;

pub const WRITE_CLOSED_FLAGS: u32 = POLL_ABORT | POLL_CONNECT_FAIL;

/// The numeric values of the composite flag sets.
pub proof fn lemma_flag_values()
    ensures
        KNOWN_EVENTS == 447,
        READABLE_FLAGS == 409,
        WRITABLE_FLAGS == 276,
        ERROR_FLAGS == 256,
        READ_CLOSED_FLAGS == 280,
        WRITE_CLOSED_FLAGS == 272,
{
    assert(1u32 | 2u32 | 4u32 | 8u32 | 16u32 | 32u32 | 128u32 | 256u32 == 447u32) by (bit_vector);
    assert(1u32 | 8u32 | 128u32 | 16u32 | 256u32 == 409u32) by (bit_vector);
    assert(4u32 | 16u32 | 256u32 == 276u32) by (bit_vector);
    assert(8u32 | 16u32 | 256u32 == 280u32) by (bit_vector);
    assert(16u32 | 256u32 == 272u32) by (bit_vector);
}

/// The plain fields of a completion-port entry that an event is read from and
/// written to: the bytes-transferred word and the completion key.
#[derive(Clone, Copy, PartialEq, Eq, Structural, Debug)]
pub struct CompletionEntry {
    pub bytes_transferred: u32,
    pub completion_key: usize,
}

/// An event of the IOCP poller: AFD flags and the user's token.
#[derive(Clone, Copy, PartialEq, Eq, Structural, Debug)]
pub struct Event {
    pub flags: u32,
    pub data: u64,
}

impl Event {
    /// An event with no flags for `token`.
    pub fn new(token: usize) -> (e: Event)
        ensures
            e.flags == 0,
            e.data == token as u64,
    {
        Event { flags: 0, data: token as u64 }
    }

    /// The token the event was made for.
    pub fn token(&self) -> (t: usize)
        ensures
            t == self.data as usize,
    {
        self.data as usize
    }

    /// Adds receive readiness to the flags.
    pub fn set_readable(&mut self)
        ensures
            final(self).flags == old(self).flags | POLL_RECEIVE,
            final(self).data == old(self).data,
    {
        self.flags = self.flags | POLL_RECEIVE;
    }

    /// Adds send readiness to the flags.
    pub fn set_writable(&mut self)
        ensures
            final(self).flags == old(self).flags | POLL_SEND,
            final(self).data == old(self).data,
    {
        self.flags = self.flags | POLL_SEND;
    }

    /// The event that a completion entry carries: its bytes-transferred word
    /// holds the flags and its key the token.
    pub fn from_entry(status: &CompletionEntry) -> (e: Event)
        ensures
            e.flags == status.bytes_transferred,
            e.data == status.completion_key as u64,
    {
        Event { flags: status.bytes_transferred, data: status.completion_key as u64 }
    }

    /// The completion entry that carries this event.
    pub fn to_entry(&self) -> (c: CompletionEntry)
        ensures
            c.bytes_transferred == self.flags,
            c.completion_key == self.data as usize,
    {
        CompletionEntry { bytes_transferred: self.flags, completion_key: self.data as usize }
    }

    pub fn is_readable(&self) -> (b: bool)
        ensures
            b == (self.flags & READABLE_FLAGS != 0),
    {
        self.flags & READABLE_FLAGS != 0
    }

    pub fn is_writable(&self) -> (b: bool)
        ensures
            b == (self.flags & WRITABLE_FLAGS != 0),
    {
        self.flags & WRITABLE_FLAGS != 0
    }

    pub fn is_error(&self) -> (b: bool)
        ensures
            b == (self.flags & ERROR_FLAGS != 0),
    {
        self.flags & ERROR_FLAGS != 0
    }

    pub fn is_read_closed(&self) -> (b: bool)
        ensures
            b == (self.flags & READ_CLOSED_FLAGS != 0),
    {
        self.flags & READ_CLOSED_FLAGS != 0
    }

    pub fn is_write_closed(&self) -> (b: bool)
        ensures
            b == (self.flags & WRITE_CLOSED_FLAGS != 0),
    {
        self.flags & WRITE_CLOSED_FLAGS != 0
    }

    pub fn is_priority(&self) -> (b: bool)
        ensures
            b == (self.flags & POLL_RECEIVE_EXPEDITED != 0),
    {
        self.flags & POLL_RECEIVE_EXPEDITED != 0
    }
}

/// An entry read back from the event it carries is that entry.
pub proof fn lemma_entry_round_trip(c: CompletionEntry)
    ensures
        ({
            let e = Event { flags: c.bytes_transferred, data: c.completion_key as u64 };
            e.flags == c.bytes_transferred && e.data as usize == c.completion_key
        }),
{
}

/// An event whose token fits a `usize` comes back whole from its entry.
pub proof fn lemma_event_round_trip(e: Event)
    requires
        e.data <= usize::MAX,
    ensures
        ({
            let c = CompletionEntry { bytes_transferred: e.flags, completion_key: e.data as usize };
            Event { flags: c.bytes_transferred, data: c.completion_key as u64 } == e
        }),
{
}

/// The AFD flags that a registration with `interests` asks for.
pub open spec fn afd_flags_of(readable: bool, writable: bool) -> u32 {
    (if readable {
        READABLE_FLAGS | READ_CLOSED_FLAGS | ERROR_FLAGS
    } else {
        0u32
    }) | (if writable {
        WRITABLE_FLAGS | WRITE_CLOSED_FLAGS | ERROR_FLAGS
    } else {
        0u32
    })
}

/// The AFD flags to poll for: the readable, read-closed and error flags for
/// readable interest, the writable, write-closed and error flags for
/// writable interest.
pub fn interests_to_afd_flags(interests: Interest) -> (flags: u32)
    ensures
        flags == afd_flags_of(
            interests.view_bits() & crate::ready::INTEREST_READABLE != 0,
            interests.view_bits() & crate::ready::INTEREST_WRITABLE != 0,
        ),
{
    let mut flags: u32 = 0;
    if interests.is_readable() {
        flags = flags | READABLE_FLAGS | READ_CLOSED_FLAGS | ERROR_FLAGS;
    }
    if interests.is_writable() {
        flags = flags | WRITABLE_FLAGS | WRITE_CLOSED_FLAGS | ERROR_FLAGS;
    }
    proof {
        lemma_flag_values();
        assert(((0u32 | 409u32) | 280u32) | 256u32 == 409u32) by (bit_vector);
        assert(((0u32 | 276u32) | 272u32) | 256u32 == 276u32) by (bit_vector);
        assert(((409u32 | 276u32) | 272u32) | 256u32 == 409u32 | 276u32) by (bit_vector);
        assert(409u32 | 0u32 == 409u32 && 0u32 | 276u32 == 276u32 && 0u32 | 0u32 == 0u32)
            by (bit_vector);
        assert((409u32 | 280u32) | 256u32 == 409u32 && (276u32 | 272u32) | 256u32 == 276u32)
            by (bit_vector);
    }
    flags
}

/// Sockets that share one AFD handle, at most.
pub const POLL_GROUP_MAX_GROUP_SIZE: usize = 32;

/// Whether registering a socket needs a new AFD handle: when there is none
/// yet, or when the last one is shared by more than the group's size (the
/// count includes the group list's own reference).
pub fn needs_new_afd_group(group_len: usize, last_strong_count: usize) -> (b: bool)
    ensures
        b == (group_len == 0 || last_strong_count > POLL_GROUP_MAX_GROUP_SIZE),
{
    group_len == 0 || last_strong_count > POLL_GROUP_MAX_GROUP_SIZE
}

/// `WSAENETDOWN`: the result of an accept whose socket could not take over
/// the listener's context.
pub const WSAENETDOWN: i32 = 10050;

/// The syscall an overlapped IOCP operation made.
#[derive(Debug, Clone, Copy, PartialEq, Eq, Structural)]
pub enum Syscall {
    Accept,
    Recv,
    WsaRecv,
    Send,
    WsaSend,
}

/// The result of a completed overlapped operation. An accept yields the
/// accepted socket when the socket took over the listener's context
/// (`context_updated`), and `WSAENETDOWN` otherwise; the other syscalls
/// yield the bytes transferred. A socket or byte count that does not fit an
/// `i32` is no result: converting it fails, so it is not taken.
pub fn iocp_resultify(
    syscall: Syscall,
    context_updated: bool,
    socket: usize,
    bytes_transferred: u32,
) -> (r: Result<u32, std::io::Error>)
    requires
        syscall == Syscall::Accept && context_updated ==> socket <= i32::MAX,
        syscall != Syscall::Accept ==> bytes_transferred <= i32::MAX,
    ensures
        syscall == Syscall::Accept && context_updated ==> r == Ok::<u32, std::io::Error>(
            socket as u32,
        ),
        syscall == Syscall::Accept && !context_updated ==> (r matches Err(e) && os_error_code_of(e)
            == Some(WSAENETDOWN)),
        syscall != Syscall::Accept ==> r == Ok::<u32, std::io::Error>(bytes_transferred),
{
    let res: i32 = match syscall {
        Syscall::Accept => {
            if context_updated {
                socket as i32
            } else {
                -WSAENETDOWN
            }
        },
        Syscall::Recv | Syscall::WsaRecv | Syscall::Send | Syscall::WsaSend => {
            bytes_transferred as i32
        },
    };
    if res >= 0 {
        Ok(res as u32)
    } else {
        Err(io_error_from_raw_os_error(-res))
    }
}

} // verus!
