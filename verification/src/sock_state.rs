//! The AFD poll state of one socket of the IOCP poller. The poller issues
//! the AFD poll and cancel requests; this state decides which request to
//! issue and what their outcomes and completions mean.
use vstd::prelude::*;

use crate::iocp::{
    afd_flags_of, interests_to_afd_flags, lemma_flag_values, Event, ERROR_FLAGS, KNOWN_EVENTS,
    POLL_ABORT, POLL_CONNECT_FAIL, POLL_LOCAL_CLOSE, POLL_RECEIVE, POLL_SEND, READABLE_FLAGS,
    READ_CLOSED_FLAGS, WRITABLE_FLAGS, WRITE_CLOSED_FLAGS,
};
use crate::ready::{Interest, INTEREST_READABLE, INTEREST_WRITABLE};

verus! {

/// `ERROR_IO_PENDING`: the overlapped poll is in progress.
pub const ERROR_IO_PENDING: i32 = 997;

/// `ERROR_INVALID_HANDLE`: the socket has been closed.
pub const ERROR_INVALID_HANDLE: i32 = 6;

/// `STATUS_CANCELLED`: the poll request was cancelled.
pub const STATUS_CANCELLED: i32 = -1073741536i32;

/// `SIO_BASE_HANDLE`: the ioctl that asks for a socket's base provider
/// handle.
pub const SIO_BASE_HANDLE: u32 = 1207959586;

/// `SIO_BSP_HANDLE_SELECT`: the base handle that `select` would use.
pub const SIO_BSP_HANDLE_SELECT: u32 = 1207959580;

/// `SIO_BSP_HANDLE_POLL`: the base handle that `WSAPoll` would use.
pub const SIO_BSP_HANDLE_POLL: u32 = 1207959581;

/// `SIO_BSP_HANDLE`: the base service provider's handle.
pub const SIO_BSP_HANDLE: u32 = 1207959579;

/// An ioctl's answer gives a base socket other than `raw_socket`.
pub open spec fn other_base(raw_socket: u64, res: Result<u64, i32>) -> bool {
    res matches Ok(b) && b != raw_socket
}

/// The base socket of `raw_socket`, which the AFD polls: `try_get` asks the
/// socket for it with an ioctl. `SIO_BASE_HANDLE` is asked first and its
/// answer taken. Only a layered provider makes it fail; then the
/// `SIO_BSP_HANDLE_SELECT`, `SIO_BSP_HANDLE_POLL` and `SIO_BSP_HANDLE` ioctls
/// are asked in turn, and the first answer that differs from `raw_socket`
/// is taken. When none gives one, the first ioctl's error code is returned.
pub fn get_base_socket<F: Fn(u64, u32) -> Result<u64, i32>>(raw_socket: u64, try_get: F) -> (r:
    Result<u64, i32>)
    requires
        forall|ioctl: u32| try_get.requires((raw_socket, ioctl)),
    ensures
        exists|first: Result<u64, i32>|
            {
                &&& #[trigger] try_get.ensures((raw_socket, SIO_BASE_HANDLE), first)
                &&& first is Ok ==> r == first
                &&& first matches Err(code) ==> exists|select: Result<u64, i32>|
                    {
                        &&& #[trigger] try_get.ensures((raw_socket, SIO_BSP_HANDLE_SELECT), select)
                        &&& other_base(raw_socket, select) ==> r == select
                        &&& !other_base(raw_socket, select) ==> exists|poll: Result<u64, i32>|
                            {
                                &&& #[trigger] try_get.ensures((raw_socket, SIO_BSP_HANDLE_POLL), poll)
                                &&& other_base(raw_socket, poll) ==> r == poll
                                &&& !other_base(raw_socket, poll) ==> exists|bsp: Result<u64, i32>|
                                    {
                                        &&& #[trigger] try_get.ensures(
                                            (raw_socket, SIO_BSP_HANDLE),
                                            bsp,
                                        )
                                        &&& other_base(raw_socket, bsp) ==> r == bsp
                                        &&& !other_base(raw_socket, bsp) ==> r == Err::<
                                            u64,
                                            i32,
                                        >(code)
                                    }
                            }
                    }
            },
{
    let first = try_get(raw_socket, SIO_BASE_HANDLE);
    proof {
        assert(try_get.ensures((raw_socket, SIO_BASE_HANDLE), first));
    }
    let code = match first {
        Ok(base) => {
            return Ok(base);
        },
        Err(code) => code,
    };
    let select = try_get(raw_socket, SIO_BSP_HANDLE_SELECT);
    if let Ok(base) = select {
        if base != raw_socket {
            proof {
                assert(try_get.ensures((raw_socket, SIO_BSP_HANDLE_SELECT), select));
            }
            return Ok(base);
        }
    }
    let poll = try_get(raw_socket, SIO_BSP_HANDLE_POLL);
    if let Ok(base) = poll {
        if base != raw_socket {
            proof {
                assert(try_get.ensures((raw_socket, SIO_BSP_HANDLE_SELECT), select));
            }
            return Ok(base);
        }
    }
    let bsp = try_get(raw_socket, SIO_BSP_HANDLE);
    if let Ok(base) = bsp {
        if base != raw_socket {
            proof {
                assert(try_get.ensures((raw_socket, SIO_BSP_HANDLE_SELECT), select));
                assert(try_get.ensures((raw_socket, SIO_BSP_HANDLE_POLL), poll));
            }
            return Ok(base);
        }
    }
    proof {
        assert(try_get.ensures((raw_socket, SIO_BSP_HANDLE_SELECT), select));
        assert(try_get.ensures((raw_socket, SIO_BSP_HANDLE_POLL), poll));
        assert(try_get.ensures((raw_socket, SIO_BSP_HANDLE), bsp));
    }
    Err(code)
}

/// Whether an AFD poll request is outstanding for a socket.
#[derive(Debug, Copy, Clone, PartialEq, Eq, Structural)]
pub enum SockPollStatus {
    Idle,
    Pending,
    Cancelled,
}

/// What an update of the socket's registration asks the poller to do.
#[derive(Debug, Copy, Clone, PartialEq, Eq, Structural)]
pub enum UpdateAction {
    /// The pending poll already covers the interest, or a cancelled one has
    /// not completed yet.
    Nothing,
    /// The pending poll misses some of the interest: cancel it.
    Cancel,
    /// No poll is outstanding: start this one.
    StartPoll(AfdPollRequest),
}

/// An AFD poll request for one socket handle: the fields of the poll
/// information block the poller hands to the AFD device.
#[derive(Debug, Copy, Clone, PartialEq, Eq, Structural)]
pub struct AfdPollRequest {
    /// Whether the poll replaces other polls of the handle (never: 0).
    pub exclusive: u32,
    /// How many handles the request polls.
    pub number_of_handles: u32,
    /// The poll's timeout: never (`i64::MAX`).
    pub timeout: i64,
    /// The socket handle polled: the socket's base socket.
    pub handle: u64,
    /// The handle's status, cleared before the poll.
    pub status: i32,
    /// The AFD events polled for.
    pub events: u32,
}

/// How starting an AFD poll ended.
#[derive(Debug, Copy, Clone, PartialEq, Eq, Structural)]
pub enum PollStart {
    /// The poll runs; the kernel holds the socket state until it completes.
    Started,
    /// The socket was closed; it is marked for deletion.
    SocketClosed,
    /// The poll failed with this OS error.
    Failed(i32),
}

/// The poll state of a socket registered with the IOCP poller.
#[derive(Debug, Copy, Clone, PartialEq, Eq, Structural)]
pub struct SockState {
    pub base_socket: u64,
    pub user_evts: u32,
    pub pending_evts: u32,
    pub user_data: u64,
    pub poll_status: SockPollStatus,
    pub delete_pending: bool,
    pub error: Option<i32>,
}

/// The AFD events that a completed poll reports, before the user's interest
/// is applied; `None` when the socket was closed.
pub open spec fn completed_events(status: i32, number_of_handles: u32, handle_events: u32) -> Option<
    u32,
> {
    if status == STATUS_CANCELLED {
        Some(0)
    } else if status < 0 {
        Some(POLL_CONNECT_FAIL)
    } else if number_of_handles < 1 {
        Some(0)
    } else if handle_events & POLL_LOCAL_CLOSE != 0 {
        None
    } else {
        Some(handle_events)
    }
}

impl SockState {
    /// The state of a socket with nothing polled yet.
    pub fn new(base_socket: u64) -> (s: SockState)
        ensures
            s == (SockState {
                base_socket,
                user_evts: 0,
                pending_evts: 0,
                user_data: 0,
                poll_status: SockPollStatus::Idle,
                delete_pending: false,
                error: None,
            }),
    {
        SockState {
            base_socket,
            user_evts: 0,
            pending_evts: 0,
            user_data: 0,
            poll_status: SockPollStatus::Idle,
            delete_pending: false,
            error: None,
        }
    }

    /// Starts an update of the registration: clears the previous error and
    /// says which request, if any, the poller must issue.
    pub fn begin_update(&mut self) -> (a: UpdateAction)
        requires
            !old(self).delete_pending,
        ensures
            *final(self) == (SockState { error: None, ..*old(self) }),
            old(self).poll_status == SockPollStatus::Pending ==> a == (if old(self).user_evts
                & KNOWN_EVENTS & !old(self).pending_evts == 0 {
                UpdateAction::Nothing
            } else {
                UpdateAction::Cancel
            }),
            old(self).poll_status == SockPollStatus::Cancelled ==> a == UpdateAction::Nothing,
            old(self).poll_status == SockPollStatus::Idle ==> a == UpdateAction::StartPoll(
                AfdPollRequest {
                    exclusive: 0,
                    number_of_handles: 1,
                    timeout: i64::MAX,
                    handle: old(self).base_socket,
                    status: 0,
                    events: old(self).user_evts | POLL_LOCAL_CLOSE,
                },
            ),
    {
        self.error = None;
        match self.poll_status {
            SockPollStatus::Pending => {
                if (self.user_evts & KNOWN_EVENTS & !self.pending_evts) == 0 {
                    UpdateAction::Nothing
                } else {
                    UpdateAction::Cancel
                }
            },
            SockPollStatus::Cancelled => UpdateAction::Nothing,
            SockPollStatus::Idle => UpdateAction::StartPoll(
                AfdPollRequest {
                    exclusive: 0,
                    number_of_handles: 1,
                    timeout: i64::MAX,
                    handle: self.base_socket,
                    status: 0,
                    events: self.user_evts | POLL_LOCAL_CLOSE,
                },
            ),
        }
    }

    /// Records how the cancel request of a pending poll ended: on success
    /// the poll counts as cancelled and nothing is pending any more.
    pub fn cancel(&mut self, afd_result: Result<(), i32>) -> (r: Result<(), i32>)
        requires
            old(self).poll_status == SockPollStatus::Pending,
        ensures
            r == afd_result,
            afd_result is Ok ==> *final(self) == (SockState {
                poll_status: SockPollStatus::Cancelled,
                pending_evts: 0,
                ..*old(self)
            }),
            afd_result is Err ==> *final(self) == *old(self),
    {
        if afd_result.is_ok() {
            self.poll_status = SockPollStatus::Cancelled;
            self.pending_evts = 0;
        }
        afd_result
    }

    /// Finishes an update that asked for a cancel: a failed cancel is kept as
    /// the socket's error.
    pub fn finish_cancel(&mut self, afd_result: Result<(), i32>) -> (r: Result<(), i32>)
        requires
            old(self).poll_status == SockPollStatus::Pending,
        ensures
            r == afd_result,
            afd_result is Ok ==> *final(self) == (SockState {
                poll_status: SockPollStatus::Cancelled,
                pending_evts: 0,
                ..*old(self)
            }),
            afd_result matches Err(code) ==> *final(self) == (SockState {
                error: Some(code),
                ..*old(self)
            }),
    {
        let r = self.cancel(afd_result);
        if let Err(code) = r {
            self.error = Some(code);
        }
        r
    }

    /// Finishes an update that started a poll: an accepted or in-progress
    /// poll makes the socket pending on its whole interest; a closed socket
    /// is marked for deletion; any other failure is kept as the error.
    pub fn finish_poll(&mut self, afd_result: Result<bool, i32>) -> (p: PollStart)
        requires
            old(self).poll_status == SockPollStatus::Idle,
            !old(self).delete_pending,
        ensures
            (afd_result is Ok || afd_result == Err::<bool, i32>(ERROR_IO_PENDING)) ==> {
                &&& p == PollStart::Started
                &&& *final(self) == (SockState {
                    poll_status: SockPollStatus::Pending,
                    pending_evts: old(self).user_evts,
                    ..*old(self)
                })
            },
            afd_result == Err::<bool, i32>(ERROR_INVALID_HANDLE) ==> {
                &&& p == PollStart::SocketClosed
                &&& *final(self) == (SockState { delete_pending: true, ..*old(self) })
            },
            (afd_result matches Err(code) && code != ERROR_IO_PENDING && code
                != ERROR_INVALID_HANDLE) ==> {
                &&& p == PollStart::Failed(afd_result->Err_0)
                &&& *final(self) == (SockState { error: Some(afd_result->Err_0), ..*old(self) })
            },
    {
        if let Err(code) = afd_result {
            if code != ERROR_IO_PENDING {
                if code == ERROR_INVALID_HANDLE {
                    self.mark_delete(Ok(()));
                    return PollStart::SocketClosed;
                } else {
                    self.error = Some(code);
                    return PollStart::Failed(code);
                }
            }
        }
        self.poll_status = SockPollStatus::Pending;
        self.pending_evts = self.user_evts;
        PollStart::Started
    }

    /// Takes the completion of the socket's poll: the socket becomes idle,
    /// and the events the user asked for among those reported are handed
    /// out once and removed from the interest. A closed socket is marked for
    /// deletion and reports nothing.
    pub fn feed_event(&mut self, status: i32, number_of_handles: u32, handle_events: u32) -> (e:
        Option<Event>)
        ensures
            final(self).poll_status == SockPollStatus::Idle,
            final(self).pending_evts == 0,
            final(self).base_socket == old(self).base_socket,
            final(self).user_data == old(self).user_data,
            final(self).error == old(self).error,
            old(self).delete_pending ==> e is None && final(self).user_evts == old(self).user_evts
                && final(self).delete_pending,
            !old(self).delete_pending ==> match completed_events(
                status,
                number_of_handles,
                handle_events,
            ) {
                None => e is None && final(self).delete_pending && final(self).user_evts == old(
                    self,
                ).user_evts,
                Some(reported) => {
                    let got = reported & old(self).user_evts;
                    &&& !final(self).delete_pending
                    &&& (got == 0 ==> e is None && final(self).user_evts == old(self).user_evts)
                    &&& (got != 0 ==> e == Some(Event { data: old(self).user_data, flags: got })
                        && final(self).user_evts == old(self).user_evts & !got)
                },
            },
    {
        self.poll_status = SockPollStatus::Idle;
        self.pending_evts = 0;
        let mut afd_events: u32 = 0;
        if self.delete_pending {
            return None;
        } else if status == STATUS_CANCELLED {
        } else if status < 0 {
            afd_events = POLL_CONNECT_FAIL;
        } else if number_of_handles < 1 {
        } else if handle_events & POLL_LOCAL_CLOSE != 0 {
            self.mark_delete(Ok(()));
            return None;
        } else {
            afd_events = handle_events;
        }
        proof {
            let u = self.user_evts;
            assert(0u32 & u == 0u32) by (bit_vector);
        }
        afd_events = afd_events & self.user_evts;
        if afd_events == 0 {
            return None;
        }
        self.user_evts = self.user_evts & !afd_events;
        Some(Event { data: self.user_data, flags: afd_events })
    }

    /// Marks the socket for deletion, once. A poll still pending is
    /// cancelled first; `cancel_result` is how that cancel request ended,
    /// and is ignored when no poll is pending.
    pub fn mark_delete(&mut self, cancel_result: Result<(), i32>)
        ensures
            old(self).delete_pending ==> *final(self) == *old(self),
            (!old(self).delete_pending && old(self).poll_status == SockPollStatus::Pending
                && cancel_result is Ok) ==> *final(self) == (SockState {
                delete_pending: true,
                poll_status: SockPollStatus::Cancelled,
                pending_evts: 0,
                ..*old(self)
            }),
            (!old(self).delete_pending && !(old(self).poll_status == SockPollStatus::Pending
                && cancel_result is Ok)) ==> *final(self) == (SockState {
                delete_pending: true,
                ..*old(self)
            }),
    {
        if !self.delete_pending {
            if let SockPollStatus::Pending = self.poll_status {
                let _ = self.cancel(cancel_result);
            }
            self.delete_pending = true;
        }
    }

    /// Sets the interest and token of the socket. The connect-fail and
    /// abort events are always reported, asked for or not. Returns whether
    /// the new interest holds events that the pending poll does not watch.
    pub fn set_event(&mut self, ev: Event) -> (b: bool)
        ensures
            *final(self) == (SockState {
                user_evts: ev.flags | POLL_CONNECT_FAIL | POLL_ABORT,
                user_data: ev.data,
                ..*old(self)
            }),
            b == ((ev.flags | POLL_CONNECT_FAIL | POLL_ABORT) & !old(self).pending_evts != 0),
    {
        let events = ev.flags | POLL_CONNECT_FAIL | POLL_ABORT;
        self.user_evts = events;
        self.user_data = ev.data;
        (events & !self.pending_evts) != 0
    }
}

/// An event handed out by a completion holds only events the user asked
/// for, and those events leave the interest until it is set again.
pub proof fn lemma_reported_events_consumed(user_evts: u32, reported: u32)
    ensures
        (reported & user_evts) & !user_evts == 0,
        (user_evts & !(reported & user_evts)) & (reported & user_evts) == 0,
        (user_evts & !(reported & user_evts)) | (reported & user_evts) == user_evts,
{
    assert((reported & user_evts) & !user_evts == 0) by (bit_vector);
    assert((user_evts & !(reported & user_evts)) & (reported & user_evts) == 0) by (bit_vector);
    assert((user_evts & !(reported & user_evts)) | (reported & user_evts) == user_evts)
        by (bit_vector);
}

/// Whatever interest is set, connect failures and aborts are watched.
pub proof fn lemma_set_event_reports_failures(flags: u32)
    ensures
        (flags | POLL_CONNECT_FAIL | POLL_ABORT) & POLL_CONNECT_FAIL != 0,
        (flags | POLL_CONNECT_FAIL | POLL_ABORT) & POLL_ABORT != 0,
{
    assert((flags | 256u32 | 16u32) & 256u32 != 0 && (flags | 256u32 | 16u32) & 16u32 != 0)
        by (bit_vector);
}

/// Why the poller refused a registration call.
#[derive(Debug)]
pub enum PollerError {
    /// The socket is registered already.
    AlreadyExists,
    /// The socket is not registered.
    NotFound,
    /// Making or starting the socket's poll state failed.
    Io(std::io::Error),
}

/// The AFD event that a registration for `token` with `interests` sets on
/// the socket's poll state.
pub open spec fn registration_event(token: usize, interests: Interest) -> Event {
    Event {
        flags: afd_flags_of(
            interests.view_bits() & INTEREST_READABLE != 0,
            interests.view_bits() & INTEREST_WRITABLE != 0,
        ),
        data: token as u64,
    }
}

/// A socket's registration with the IOCP poller: the key of its poll state
/// while it is registered, and the token and interest it was registered
/// with.
pub struct SocketRegistration {
    pub sock: Option<usize>,
    pub token: usize,
    pub interest: Interest,
}

impl SocketRegistration {
    /// A socket that is not registered.
    pub fn new() -> (r: SocketRegistration)
        ensures
            r.sock is None,
            r.token == 0,
            r.interest.view_bits() == INTEREST_READABLE,
    {
        SocketRegistration { sock: None, token: 0, interest: Interest::readable() }
    }

    /// Registers the socket under `token` for `interests`. A registered
    /// socket is refused. Otherwise `alloc` makes its poll state and returns
    /// its key, and `start` sets the registration's event on that state and
    /// queues it for polling; only when both succeed is the registration
    /// recorded, and the key returned.
    pub fn register<A: FnOnce() -> Result<usize, std::io::Error>, S: FnOnce(usize, Event) -> Result<
        (),
        std::io::Error,
    >>(&mut self, token: usize, interests: Interest, alloc: A, start: S) -> (r: Result<
        usize,
        PollerError,
    >)
        requires
            alloc.requires(()),
            forall|k: usize, ev: Event| start.requires((k, ev)),
        ensures
            old(self).sock is Some ==> (r matches Err(PollerError::AlreadyExists))
                && *final(self) == *old(self),
            old(self).sock is None ==> exists|a: Result<usize, std::io::Error>|
                {
                    &&& #[trigger] alloc.ensures((), a)
                    &&& a matches Err(e) ==> (r matches Err(PollerError::Io(e2)) && e2 == e)
                        && *final(self) == *old(self)
                    &&& a matches Ok(k) ==> exists|s: Result<(), std::io::Error>|
                        {
                            &&& #[trigger] start.ensures((k, registration_event(token, interests)), s)
                            &&& s matches Err(e) ==> (r matches Err(PollerError::Io(e2)) && e2
                                == e) && *final(self) == *old(self)
                            &&& s is Ok ==> r == Ok::<usize, PollerError>(k) && *final(self) == (
                                SocketRegistration { sock: Some(k), token, interest: interests })
                        }
                },
    {
        if self.sock.is_some() {
            return Err(PollerError::AlreadyExists);
        }
        let a = alloc();
        proof {
            assert(alloc.ensures((), a));
        }
        let k = match a {
            Ok(k) => k,
            Err(e) => {
                return Err(PollerError::Io(e));
            },
        };
        let ev = Event { flags: interests_to_afd_flags(interests), data: token as u64 };
        let s = start(k, ev);
        proof {
            assert(start.ensures((k, registration_event(token, interests)), s));
        }
        match s {
            Ok(()) => {
                self.sock = Some(k);
                self.token = token;
                self.interest = interests;
                Ok(k)
            },
            Err(e) => Err(PollerError::Io(e)),
        }
    }

    /// Changes a registered socket's token and interest, and lets `start`
    /// set the new event on its poll state and queue it; its failure is
    /// returned, the new token and interest are kept either way. A socket
    /// that is not registered is refused.
    pub fn reregister<S: FnOnce(usize, Event) -> Result<(), std::io::Error>>(
        &mut self,
        token: usize,
        interests: Interest,
        start: S,
    ) -> (r: Result<(), PollerError>)
        requires
            forall|k: usize, ev: Event| start.requires((k, ev)),
        ensures
            old(self).sock is None ==> (r matches Err(PollerError::NotFound))
                && *final(self) == *old(self),
            old(self).sock matches Some(k) ==> {
                &&& *final(self) == (SocketRegistration {
                    sock: Some(k),
                    token,
                    interest: interests,
                })
                &&& exists|s: Result<(), std::io::Error>|
                    {
                        &&& #[trigger] start.ensures((k, registration_event(token, interests)), s)
                        &&& s is Ok ==> r is Ok
                        &&& s matches Err(e) ==> (r matches Err(PollerError::Io(e2)) && e2 == e)
                    }
            },
    {
        match self.sock {
            Some(k) => {
                let ev = Event { flags: interests_to_afd_flags(interests), data: token as u64 };
                self.token = token;
                self.interest = interests;
                let s = start(k, ev);
                proof {
                    assert(start.ensures((k, registration_event(token, interests)), s));
                }
                match s {
                    Ok(()) => Ok(()),
                    Err(e) => Err(PollerError::Io(e)),
                }
            },
            None => Err(PollerError::NotFound),
        }
    }

    /// Deregisters the socket: the key of its poll state is handed back, to
    /// be marked for deletion, and the socket is no longer registered. A
    /// socket that is not registered is refused.
    pub fn deregister(&mut self) -> (r: Result<usize, PollerError>)
        ensures
            old(self).sock is None ==> (r matches Err(PollerError::NotFound))
                && *final(self) == *old(self),
            old(self).sock matches Some(k) ==> r == Ok::<usize, PollerError>(k) && *final(self) == (
                SocketRegistration { sock: None, ..*old(self) }),
    {
        match self.sock {
            Some(k) => {
                self.sock = None;
                Ok(k)
            },
            None => Err(PollerError::NotFound),
        }
    }
}

/// A completed AFD poll reports the events of its handle unless the
/// socket was closed locally: only `POLL_LOCAL_CLOSE` in a successful
/// completion marks the socket for deletion; every other event, a reset or
/// abort among them, is reported. A failed request counts as a failed
/// connection, and a cancelled or empty one reports nothing.
pub proof fn lemma_completion_reports_handle_events(
    status: i32,
    number_of_handles: u32,
    handle_events: u32,
)
    ensures
        status >= 0 && number_of_handles >= 1 && handle_events & POLL_LOCAL_CLOSE == 0
            ==> completed_events(status, number_of_handles, handle_events) == Some(handle_events),
        completed_events(status, number_of_handles, handle_events) is None <==> (status >= 0
            && number_of_handles >= 1 && handle_events & POLL_LOCAL_CLOSE != 0),
        status < 0 && status != STATUS_CANCELLED ==> completed_events(
            status,
            number_of_handles,
            handle_events,
        ) == Some(POLL_CONNECT_FAIL),
        status == STATUS_CANCELLED || (status >= 0 && number_of_handles == 0) ==> completed_events(
            status,
            number_of_handles,
            handle_events,
        ) == Some(0u32),
{
}

/// A registration polls for every readiness of its interest: readable
/// interest asks for received data (with the closed and error events),
/// writable interest for send room (with theirs), and the event carries
/// the registration's token.
pub proof fn lemma_registration_event_flags(token: usize, interests: Interest)
    ensures
        ({
            let ev = registration_event(token, interests);
            let readable = interests.view_bits() & INTEREST_READABLE != 0;
            let writable = interests.view_bits() & INTEREST_WRITABLE != 0;
            &&& ev.data == token as u64
            &&& (ev.flags & POLL_RECEIVE != 0) == readable
            &&& (ev.flags & POLL_SEND != 0) == writable
            &&& readable ==> ev.flags & (READABLE_FLAGS | READ_CLOSED_FLAGS | ERROR_FLAGS) == (
            READABLE_FLAGS | READ_CLOSED_FLAGS | ERROR_FLAGS)
            &&& writable ==> ev.flags & (WRITABLE_FLAGS | WRITE_CLOSED_FLAGS | ERROR_FLAGS) == (
            WRITABLE_FLAGS | WRITE_CLOSED_FLAGS | ERROR_FLAGS)
            &&& (!readable && !writable) ==> ev.flags == 0
        }),
{
    lemma_flag_values();
    assert(((409u32 | 280u32) | 256u32) == 409u32) by (bit_vector);
    assert(((276u32 | 272u32) | 256u32) == 276u32) by (bit_vector);
    assert((409u32 | 276u32) == 413u32) by (bit_vector);
    assert(409u32 | 0u32 == 409u32 && 0u32 | 276u32 == 276u32 && 0u32 | 0u32 == 0u32)
        by (bit_vector);
    assert(413u32 & 1u32 != 0 && 413u32 & 4u32 != 0 && 409u32 & 1u32 != 0 && 409u32 & 4u32 == 0
        && 276u32 & 1u32 == 0 && 276u32 & 4u32 != 0 && 0u32 & 1u32 == 0 && 0u32 & 4u32 == 0)
        by (bit_vector);
    assert(413u32 & 409u32 == 409u32 && 413u32 & 276u32 == 276u32 && 409u32 & 409u32 == 409u32
        && 276u32 & 276u32 == 276u32) by (bit_vector);
}

} // verus!
