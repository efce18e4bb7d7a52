//! The state of a shared file descriptor: how it is registered with the
//! current driver, and how it is closed once no operation uses it.
use vstd::prelude::*;

use crate::maybe_fd::{error_kind_of, os_error_code_of, IoErrorKind};
use crate::task::{waker_clone, waker_clone_from, waker_will_wake};

verus! {

/// The kind of driver a thread runs.
#[derive(Debug, Clone, Copy, PartialEq, Eq, Structural)]
pub enum DriverKind {
    Uring,
    Legacy,
}

/// Checks whether a driver kind is the readiness-based (legacy) one.
pub fn is_legacy(kind: DriverKind) -> (b: bool)
    ensures
        b == (kind == DriverKind::Legacy),
{
    matches!(kind, DriverKind::Legacy)
}

/// The state of a descriptor under the io_uring driver; `C` is the close
/// operation in flight.
pub enum UringState<C> {
    /// Initial state.
    Init,
    /// Waiting for all in-flight operations to complete.
    Waiting(Option<std::task::Waker>),
    /// The descriptor is closing.
    Closing(C),
    /// The descriptor is fully closed.
    Closed,
    /// Converted to readiness polling, under this token.
    Legacy(Option<usize>),
}

/// The state of a descriptor; `C` is the close operation in flight.
pub enum State<C> {
    Uring(UringState<C>),
    Legacy(Option<usize>),
}

/// What dropping the last handle of a descriptor has to do.
#[derive(Debug, Clone, Copy, PartialEq, Eq, Structural)]
pub enum DropAction {
    /// Submit a close operation, or close it at once if that fails.
    CloseByOp,
    /// Deregister it from the readiness driver under the token, if any, and
    /// close it.
    DeregisterLegacy(Option<usize>),
    /// Deregister it from the io_uring driver's poller under the token, if
    /// any, and close it.
    DeregisterUringPoll(Option<usize>),
    /// Nothing: it is closed or closing already.
    Nothing,
}

/// What polling for the close of a descriptor found.
#[derive(Debug, Clone, Copy, PartialEq, Eq, Structural)]
pub enum ClosedPoll {
    /// Still waiting; the task is kept to be woken.
    Pending,
    /// The descriptor is closed, or there is nothing to wait for.
    Ready,
    /// The close operation is in flight: poll it, and mark the state closed
    /// once it is done.
    PollCloseOp,
}

/// `std::io::Error::other`: an error of kind `Other` carrying `msg`. Its
/// documentation says the kind is `Other`, and that only errors made from
/// an OS error code carry one.
#[verifier::external_body]
fn io_error_other(msg: &str) -> (e: std::io::Error)
    ensures
        error_kind_of(e) == IoErrorKind::Other,
        os_error_code_of(e) is None,
{
    std::io::Error::other(msg)
}

impl<C> State<C> {
    /// The state of a descriptor that is registered with the driver of
    /// `kind`. Under io_uring nothing has to be registered, unless readiness
    /// polling is forced and available (`poll_io`); then, and under the
    /// readiness driver, `register` registers it and its token is kept. A
    /// failed registration is the error.
    pub fn new_registered<F: FnOnce() -> Result<usize, std::io::Error>>(
        kind: DriverKind,
        force_legacy: bool,
        poll_io: bool,
        register: F,
    ) -> (r: Result<State<C>, std::io::Error>)
        requires
            register.requires(()),
        ensures
            (kind == DriverKind::Uring && !(force_legacy && poll_io)) ==> r matches Ok(
                State::Uring(UringState::Init),
            ),
            (kind == DriverKind::Uring && force_legacy && poll_io) ==> exists|
                reg: Result<usize, std::io::Error>,
            |
                #[trigger] register.ensures((), reg) && match reg {
                    Ok(token) => r matches Ok(State::Uring(UringState::Legacy(Some(t)))) && t
                        == token,
                    Err(e) => r matches Err(e2) && e2 == e,
                },
            kind == DriverKind::Legacy ==> exists|reg: Result<usize, std::io::Error>|
                #[trigger] register.ensures((), reg) && match reg {
                    Ok(token) => r matches Ok(State::Legacy(Some(t))) && t == token,
                    Err(e) => r matches Err(e2) && e2 == e,
                },
    {
        match kind {
            DriverKind::Uring => {
                if force_legacy && poll_io {
                    match register() {
                        Ok(token) => Ok(State::Uring(UringState::Legacy(Some(token)))),
                        Err(e) => Err(e),
                    }
                } else {
                    Ok(State::Uring(UringState::Init))
                }
            },
            DriverKind::Legacy => {
                match register() {
                    Ok(token) => Ok(State::Legacy(Some(token))),
                    Err(e) => Err(e),
                }
            },
        }
    }

    /// The state of a descriptor that is not registered with the driver of
    /// `kind`.
    pub fn new_without_register(kind: DriverKind) -> (s: State<C>)
        ensures
            kind == DriverKind::Uring ==> s matches State::Uring(UringState::Init),
            kind == DriverKind::Legacy ==> s matches State::Legacy(None),
    {
        match kind {
            DriverKind::Uring => State::Uring(UringState::Init),
            DriverKind::Legacy => State::Legacy(None),
        }
    }

    /// The token under which the descriptor waits for readiness, if any.
    pub open spec fn token_spec(&self) -> Option<usize> {
        match self {
            State::Uring(UringState::Legacy(s)) => *s,
            State::Uring(_) => None,
            State::Legacy(s) => *s,
        }
    }

    /// The token under which the descriptor waits for readiness, if any.
    pub fn registered_index(&self) -> (r: Option<usize>)
        ensures
            r == self.token_spec(),
    {
        match self {
            State::Uring(UringState::Legacy(s)) => *s,
            State::Uring(_) => None,
            State::Legacy(s) => *s,
        }
    }

    /// What dropping the last handle of the descriptor has to do: one that
    /// io_uring may still use is closed by an operation, one of the
    /// readiness driver or of io_uring's poller is deregistered and closed,
    /// and one that is closing or closed needs nothing.
    pub fn drop_action(&self) -> (a: DropAction)
        ensures
            a == match self {
                State::Uring(UringState::Init) => DropAction::CloseByOp,
                State::Uring(UringState::Waiting(_)) => DropAction::CloseByOp,
                State::Uring(UringState::Legacy(t)) => DropAction::DeregisterUringPoll(*t),
                State::Uring(_) => DropAction::Nothing,
                State::Legacy(t) => DropAction::DeregisterLegacy(*t),
            },
    {
        match self {
            State::Uring(UringState::Init) | State::Uring(UringState::Waiting(..)) => {
                DropAction::CloseByOp
            },
            State::Uring(UringState::Legacy(t)) => DropAction::DeregisterUringPoll(*t),
            State::Uring(_) => DropAction::Nothing,
            State::Legacy(t) => DropAction::DeregisterLegacy(*t),
        }
    }

    /// The token to deregister when the descriptor is taken back without
    /// being closed: that of the readiness driver, if any.
    pub fn unwrap_token(&self) -> (t: Option<usize>)
        ensures
            t == match self {
                State::Legacy(t) => *t,
                State::Uring(_) => None,
            },
    {
        match self {
            State::Legacy(t) => *t,
            State::Uring(_) => None,
        }
    }

    /// Whether the descriptor belongs to the io_uring driver, and so is
    /// closed by an operation that has to be waited for; one of the
    /// readiness driver is closed when it is dropped.
    pub fn is_uring(&self) -> (b: bool)
        ensures
            b == (*self is Uring),
    {
        matches!(self, State::Uring(_))
    }

    /// Starts closing a descriptor of the io_uring driver that no other
    /// handle shares: the close operation is kept until it completes.
    pub fn start_close(&mut self, op: C)
        requires
            *old(self) is Uring,
        ensures
            *final(self) matches State::Uring(UringState::Closing(c)) && c == op,
    {
        *self = State::Uring(UringState::Closing(op));
    }

    /// Polls for the close of the descriptor for the task of `waker`. Until
    /// a close operation is submitted the task is kept to be woken; with
    /// the close in flight the caller polls it; a closed descriptor, or one
    /// not under io_uring, is ready.
    pub fn poll_closed(&mut self, waker: &std::task::Waker) -> (p: ClosedPoll)
        ensures
            match *old(self) {
                State::Uring(UringState::Init) => p == ClosedPoll::Pending
                    && *final(self) matches State::Uring(UringState::Waiting(Some(_))),
                State::Uring(UringState::Waiting(_)) => p == ClosedPoll::Pending
                    && *final(self) matches State::Uring(UringState::Waiting(Some(_))),
                State::Uring(UringState::Closing(_)) => p == ClosedPoll::PollCloseOp
                    && *final(self) == *old(self),
                _ => p == ClosedPoll::Ready && *final(self) == *old(self),
            },
    {
        match self {
            State::Uring(uring_state) => {
                match uring_state {
                    UringState::Init => {
                        *uring_state = UringState::Waiting(Some(waker_clone(waker)));
                        ClosedPoll::Pending
                    },
                    UringState::Waiting(Some(existing)) => {
                        if !waker_will_wake(existing, waker) {
                            waker_clone_from(existing, waker);
                        }
                        ClosedPoll::Pending
                    },
                    UringState::Waiting(None) => {
                        *uring_state = UringState::Waiting(Some(waker_clone(waker)));
                        ClosedPoll::Pending
                    },
                    UringState::Closing(_) => ClosedPoll::PollCloseOp,
                    UringState::Closed => ClosedPoll::Ready,
                    UringState::Legacy(_) => ClosedPoll::Ready,
                }
            },
            State::Legacy(_) => ClosedPoll::Ready,
        }
    }

    /// Marks a descriptor whose close operation finished as closed.
    pub fn set_closed(&mut self)
        requires
            *old(self) matches State::Uring(UringState::Closing(_)),
        ensures
            *final(self) matches State::Uring(UringState::Closed),
    {
        *self = State::Uring(UringState::Closed);
    }

    /// Converts a descriptor of the io_uring driver to readiness polling:
    /// `register` switches it to non-blocking mode and registers it, and the
    /// token it returns is kept. Only a descriptor in its initial state can
    /// be converted; one of the readiness driver needs nothing.
    pub fn cvt_uring_poll<F: FnOnce() -> Result<usize, std::io::Error>>(&mut self, register: F) -> (r:
        Result<(), std::io::Error>)
        requires
            register.requires(()),
        ensures
            *old(self) is Legacy ==> r is Ok && *final(self) == *old(self),
            *old(self) matches State::Uring(u) && !(u is Init) ==> (r matches Err(e)
                && error_kind_of(e) == IoErrorKind::Other) && *final(self)
                == *old(self),
            *old(self) matches State::Uring(UringState::Init) ==> exists|
                reg: Result<usize, std::io::Error>,
            |
                #[trigger] register.ensures((), reg) && match reg {
                    Ok(token) => r is Ok && (*final(self) matches State::Uring(
                        UringState::Legacy(Some(t)),
                    ) && t == token),
                    Err(e) => r matches Err(e2) && e2 == e && *final(self) == *old(self),
                },
    {
        let state = match self {
            State::Uring(state) => state,
            _ => return Ok(()),
        };
        if let UringState::Init = state {
            match register() {
                Ok(token) => {
                    *state = UringState::Legacy(Some(token));
                    Ok(())
                },
                Err(e) => Err(e),
            }
        } else {
            Err(io_error_other("not clear uring state"))
        }
    }

    /// Converts a descriptor polled for readiness under io_uring back to
    /// completion mode: `deregister` deregisters the token and restores
    /// blocking mode, and the descriptor returns to its initial state. A
    /// descriptor without a token is an error; any other needs nothing.
    pub fn cvt_comp<F: FnOnce(usize) -> Result<(), std::io::Error>>(&mut self, deregister: F) -> (r:
        Result<(), std::io::Error>)
        requires
            forall|token: usize| deregister.requires((token,)),
        ensures
            *old(self) matches State::Uring(UringState::Legacy(None)) ==> (r matches Err(e)
                && error_kind_of(e) == IoErrorKind::Other) && *final(self)
                == *old(self),
            *old(self) matches State::Uring(UringState::Legacy(Some(token))) ==> exists|
                d: Result<(), std::io::Error>,
            |
                #[trigger] deregister.ensures((token,), d) && match d {
                    Ok(_) => r is Ok && *final(self) matches State::Uring(UringState::Init),
                    Err(e) => r matches Err(e2) && e2 == e && *final(self) == *old(self),
                },
            !(*old(self) matches State::Uring(UringState::Legacy(_))) ==> r is Ok && *final(self)
                == *old(self),
    {
        let token = match self {
            State::Uring(UringState::Legacy(inner)) => {
                match inner {
                    Some(token) => *token,
                    None => {
                        return Err(io_error_other("empty token"));
                    },
                }
            },
            _ => return Ok(()),
        };
        match deregister(token) {
            Ok(()) => {
                *self = State::Uring(UringState::Init);
                Ok(())
            },
            Err(e) => Err(e),
        }
    }
}

} // verus!
