//! The readiness-based (poll-like) driver: the registered I/O resources,
//! the dispatch of readiness events to them, and the operations that wait
//! for readiness and then make their syscall.
use vstd::prelude::*;

use crate::maybe_fd::{
    error_kind_of, io_error_from_raw_os_error, io_error_kind, os_error_code_of, result_would_block, would_block,
    CompletionMeta, IoErrorKind, MaybeFd,
};
use crate::ready::{Direction, Ready, CANCELED, READ_ALL, READ_CANCELED, WRITE_ALL, WRITE_CANCELED};
use crate::scheduled_io::{other_direction, woken_by, ScheduledIo, Woken};
use crate::slab::Slab;
use crate::task::PollResult;

verus! {

/// `ECANCELED`: the result of an operation cancelled while it waited.
pub const ECANCELED: i32 = 125;

/// How long the poller waits for events.
#[derive(Debug, Clone, Copy, PartialEq, Eq, Structural)]
pub enum PollTimeout {
    /// Until an event comes.
    Forever,
    /// The caller's timeout.
    Given,
    /// Not at all: only events that are there already.
    Zero,
}

/// How long parking the readiness driver waits: when a task woken from
/// another thread was handled (`need_wait` is false) there is work to do
/// and the poller only looks for events; otherwise it waits for the
/// caller's timeout, or forever without one.
pub fn legacy_poll_timeout(need_wait: bool, has_timeout: bool) -> (t: PollTimeout)
    ensures
        t == (if !need_wait {
            PollTimeout::Zero
        } else if has_timeout {
            PollTimeout::Given
        } else {
            PollTimeout::Forever
        }),
{
    if !need_wait {
        PollTimeout::Zero
    } else if has_timeout {
        PollTimeout::Given
    } else {
        PollTimeout::Forever
    }
}

/// The outcome of waiting on the poller: an interrupted wait counts as a
/// wait that ended without events; any other result stands.
pub fn poll_outcome(r: Result<(), std::io::Error>) -> (o: Result<(), std::io::Error>)
    ensures
        o == match r {
            Err(e) => if error_kind_of(e) == IoErrorKind::Interrupted {
                Ok(())
            } else {
                Err(e)
            },
            Ok(()) => Ok(()),
        },
{
    match r {
        Err(e) => {
            if matches!(io_error_kind(&e), IoErrorKind::Interrupted) {
                Ok(())
            } else {
                Err(e)
            }
        },
        Ok(()) => Ok(()),
    }
}

/// `after` is `before` with readiness `ready` added and the wakers of the
/// tasks waiting for it taken out.
pub open spec fn dispatched(before: ScheduledIo, after: ScheduledIo, ready: Ready) -> bool {
    &&& after.readiness_spec().0 == before.readiness_spec().0 | ready.0
    &&& after.has_reader() == (before.has_reader() && !ready.meets(READ_ALL))
    &&& after.has_writer() == (before.has_writer() && !ready.meets(WRITE_ALL))
}

/// `after` is `before` with readiness bits `cleared` removed and the waiters
/// unchanged.
pub open spec fn cleared(before: ScheduledIo, after: ScheduledIo, cleared: u8) -> bool {
    &&& after.readiness_spec().0 == before.readiness_spec().0 & !cleared
    &&& after.has_reader() == before.has_reader()
    &&& after.has_writer() == before.has_writer()
}

/// `after` is `before` with a task kept to be woken in `direction`.
pub open spec fn parked(before: ScheduledIo, after: ScheduledIo, direction: Direction) -> bool {
    &&& after.readiness_spec() == before.readiness_spec()
    &&& after.has_waiter(direction)
    &&& after.has_waiter(other_direction(direction)) == before.has_waiter(
        other_direction(direction),
    )
}

/// `after` differs from `before` at most in the slot of `token`.
pub open spec fn same_but(
    before: Map<usize, ScheduledIo>,
    after: Map<usize, ScheduledIo>,
    token: usize,
) -> bool {
    &&& after.dom() == before.dom()
    &&& forall|k: usize| k != token && #[trigger] before.contains_key(k) ==> after[k] == before[k]
}

/// The registered I/O resources, by token.
pub struct IoDispatch {
    pub slab: Slab<ScheduledIo>,
}

impl View for IoDispatch {
    type V = Map<usize, ScheduledIo>;

    /// The resources' readiness slots, by token.
    open spec fn view(&self) -> Map<usize, ScheduledIo> {
        self.slab@
    }
}

impl IoDispatch {
    pub open spec fn wf(&self) -> bool {
        self.slab.wf()
    }

    /// No resource registered.
    pub fn new() -> (d: IoDispatch)
        ensures
            d.wf(),
            d@ == Map::<usize, ScheduledIo>::empty(),
    {
        IoDispatch { slab: Slab::new() }
    }

    /// Registers a resource: a fresh readiness slot is made, and `register`
    /// tells the poller about the resource under the slot's token. On
    /// success the token is returned; on failure the slot is given back and
    /// the poller's error returned.
    pub fn register<F: FnOnce(usize) -> Result<(), std::io::Error>>(&mut self, register: F) -> (r:
        Result<usize, std::io::Error>)
        requires
            old(self).wf(),
            forall|token: usize| register.requires((token,)),
        ensures
            final(self).wf(),
            exists|token: usize, outcome: Result<(), std::io::Error>|
                {
                    &&& !old(self)@.contains_key(token)
                    &&& #[trigger] register.ensures((token,), outcome)
                    &&& match outcome {
                        Ok(_) => {
                            &&& r == Ok::<usize, std::io::Error>(token)
                            &&& final(self)@.dom() == old(self)@.dom().insert(token)
                            &&& final(self)@.remove(token) == old(self)@
                            &&& final(self)@[token].readiness_spec().0 == 0
                            &&& !final(self)@[token].has_reader()
                            &&& !final(self)@[token].has_writer()
                        },
                        Err(e) => r == Err::<usize, std::io::Error>(e) && final(self)@ == old(
                            self,
                        )@,
                    }
                },
    {
        let token = self.slab.insert(ScheduledIo::default());
        let ghost inserted = self.slab@;
        let outcome = register(token);
        match outcome {
            Ok(()) => {
                proof {
                    assert(self@.remove(token) =~= old(self)@);
                    assert(self@.dom() =~= old(self)@.dom().insert(token));
                    assert(register.ensures((token,), outcome));
                }
                Ok(token)
            },
            Err(e) => {
                self.slab.remove(token);
                proof {
                    assert(self@ =~= old(self)@);
                }
                Err(e)
            },
        }
    }

    /// Deregisters the resource of `token`: `deregister` tells the poller to
    /// forget it, and only when that succeeds is its slot given back.
    pub fn deregister<F: FnOnce() -> Result<(), std::io::Error>>(
        &mut self,
        token: usize,
        deregister: F,
    ) -> (r: Result<(), std::io::Error>)
        requires
            old(self).wf(),
            deregister.requires(()),
        ensures
            final(self).wf(),
            deregister.ensures((), r),
            r is Ok ==> final(self)@ == old(self)@.remove(token),
            r is Err ==> final(self)@ == old(self)@,
    {
        let outcome = deregister();
        if outcome.is_ok() {
            self.slab.remove(token);
        }
        outcome
    }

    /// Hands readiness `ready` reported for `token` to its slot: the
    /// readiness is added and the wakers of the tasks waiting for it are
    /// taken out and returned, for the caller to wake. An unknown token is
    /// ignored and wakes nobody.
    pub fn dispatch(&mut self, token: usize, ready: Ready) -> (w: Woken)
        requires
            old(self).wf(),
        ensures
            final(self).wf(),
            w == (if old(self)@.contains_key(token) {
                woken_by(old(self)@[token], ready)
            } else {
                Woken { reader: None, writer: None }
            }),
            same_but(old(self)@, final(self)@, token),
            old(self)@.contains_key(token) ==> dispatched(
                old(self)@[token],
                final(self)@[token],
                ready,
            ),
    {
        match self.slab.get_mut(token) {
            Some(sio) => {
                let add = |curr: Ready| -> (r: Ready)
                    ensures
                        r.0 == curr.0 | ready.0,
                    { curr | ready };
                sio.set_readiness(add);
                let w = sio.wake(ready);
                proof {
                    assert(self@.dom() =~= old(self)@.dom());
                }
                w
            },
            None => {
                proof {
                    assert(self@.dom() =~= old(self)@.dom());
                }
                Woken { reader: None, writer: None }
            },
        }
    }

    /// Cancels the wait in `direction` on `index`: the cancellation is
    /// dispatched as readiness, and the waker of the task waiting in that
    /// direction is returned for the caller to wake.
    pub fn cancel_op(&mut self, index: usize, direction: Direction) -> (w: Woken)
        requires
            old(self).wf(),
        ensures
            final(self).wf(),
            w == (if old(self)@.contains_key(index) {
                woken_by(
                    old(self)@[index],
                    Ready(
                        match direction {
                            Direction::Read => READ_CANCELED,
                            Direction::Write => WRITE_CANCELED,
                        },
                    ),
                )
            } else {
                Woken { reader: None, writer: None }
            }),
            same_but(old(self)@, final(self)@, index),
            old(self)@.contains_key(index) ==> dispatched(
                old(self)@[index],
                final(self)@[index],
                Ready(
                    match direction {
                        Direction::Read => READ_CANCELED,
                        Direction::Write => WRITE_CANCELED,
                    },
                ),
            ),
    {
        let ready = match direction {
            Direction::Read => Ready::read_canceled(),
            Direction::Write => Ready::write_canceled(),
        };
        self.dispatch(index, ready)
    }

    /// Settles the syscall of an operation that waited in `direction` on
    /// `index`: a result that would have blocked clears the readiness of
    /// that direction and asks for a retry (`None`); any other result
    /// completes the operation.
    pub fn settle_call(
        &mut self,
        index: usize,
        direction: Direction,
        result: Result<MaybeFd, std::io::Error>,
        would_block: bool,
    ) -> (done: Option<CompletionMeta>)
        requires
            old(self).wf(),
            old(self)@.contains_key(index),
        ensures
            final(self).wf(),
            same_but(old(self)@, final(self)@, index),
            (result is Err && would_block) ==> {
                &&& done is None
                &&& cleared(old(self)@[index], final(self)@[index], direction.mask_bits())
            },
            !(result is Err && would_block) ==> {
                &&& done == Some(CompletionMeta { result, flags: 0 })
                &&& final(self)@ == old(self)@
            },
    {
        match result {
            Err(e) => {
                if would_block {
                    let sio = self.slab.get_mut(index).unwrap();
                    sio.clear_readiness(direction.mask());
                    proof {
                        assert(self@.dom() =~= old(self)@.dom());
                    }
                    None
                } else {
                    Some(CompletionMeta { result: Err(e), flags: 0 })
                }
            },
            Ok(n) => Some(CompletionMeta { result: Ok(n), flags: 0 }),
        }
    }
}

/// The syscall `call` was made once and settled the poll `p`: either its
/// result completed the operation and the slot is unchanged, or it failed in
/// a way that counts as would-block, the direction's readiness was cleared
/// and the task now waits in that direction.
pub open spec fn call_settled<F: FnOnce() -> Result<MaybeFd, std::io::Error>>(
    call: F,
    before: ScheduledIo,
    after: ScheduledIo,
    direction: Direction,
    p: PollResult<CompletionMeta>,
) -> bool {
    exists|r: Result<MaybeFd, std::io::Error>|
        #[trigger] call.ensures((), r) && {
            ||| !result_would_block(r) && p == PollResult::Ready(CompletionMeta { result: r, flags: 0 })
                && after == before
            ||| result_would_block(r) && p == PollResult::<CompletionMeta>::Pending && after.readiness_spec().0
                == before.readiness_spec().0 & !direction.mask_bits() && after.has_waiter(
                direction,
            ) && after.has_waiter(other_direction(direction)) == before.has_waiter(
                other_direction(direction),
            )
        }
}

impl IoDispatch {
    /// Polls an operation of the readiness-based driver for the task of
    /// `waker`. An operation with no readiness to wait for (`interest` is
    /// `None`) makes its syscall at once. Otherwise, while its resource is
    /// not ready in the operation's direction, the task is kept to be woken
    /// and the poll is pending; a cancellation dispatched to the resource
    /// ends the operation with `ECANCELED` and clears that cancellation; a
    /// ready resource gets the syscall, and a syscall that would have blocked
    /// clears the direction's readiness and waits again.
    pub fn poll_op<F: FnMut() -> Result<MaybeFd, std::io::Error>>(
        &mut self,
        interest: Option<(Direction, usize)>,
        waker: &std::task::Waker,
        call: F,
    ) -> (p: PollResult<CompletionMeta>)
        requires
            old(self).wf(),
            call.requires(()),
            interest matches Some((_, index)) ==> old(self)@.contains_key(index),
        ensures
            final(self).wf(),
            interest is None ==> final(self)@ == old(self)@ && exists|r: Result<MaybeFd, std::io::Error>|
                call.ensures((), r) && p == PollResult::Ready(CompletionMeta { result: r, flags: 0 }),
            interest matches Some((direction, index)) ==> {
                let before = old(self)@[index];
                let after = final(self)@[index];
                let mask = direction.mask_bits();
                let ready = before.readiness_spec().0 & mask;
                &&& same_but(old(self)@, final(self)@, index)
                &&& ready == 0 ==> p == PollResult::<CompletionMeta>::Pending && parked(
                    before,
                    after,
                    direction,
                )
                &&& (ready != 0 && ready & CANCELED != 0) ==> {
                    &&& p matches PollResult::Ready(meta)
                    &&& p->Ready_0.flags == 0
                    &&& p->Ready_0.result matches Err(e)
                    &&& os_error_code_of(p->Ready_0.result->Err_0) == Some(ECANCELED)
                    &&& cleared(before, after, ready & CANCELED)
                }
                &&& (ready != 0 && ready & CANCELED == 0) ==> call_settled(
                    call,
                    before,
                    after,
                    direction,
                    p,
                )
            },
    {
        let mut syscall = call;
        let (direction, index) = match interest {
            Some(x) => x,
            None => {
                let r = syscall();
                return PollResult::Ready(CompletionMeta { result: r, flags: 0 });
            },
        };
        let ghost before = self@[index];
        let ghost mask = direction.mask_bits();
        let ghost mut retried: bool = false;
        let ghost mut first: Result<MaybeFd, std::io::Error> = arbitrary();
        loop
            invariant
                self.wf(),
                self@.contains_key(index),
                interest == Some((direction, index)),
                before == old(self)@[index],
                mask == direction.mask_bits(),
                call.requires(()),
                syscall == call,
                same_but(old(self)@, self@, index),
                !retried ==> self@[index] == before,
                retried ==> {
                    &&& cleared(before, self@[index], mask)
                    &&& call.ensures((), first)
                    &&& result_would_block(first)
                    &&& before.readiness_spec().0 & mask != 0
                    &&& before.readiness_spec().0 & mask & CANCELED == 0
                },
            decreases
                (if retried {
                    0int
                } else {
                    1int
                }),
        {
            let sio = self.slab.get_mut(index).unwrap();
            let readiness = match sio.poll_readiness(waker, direction) {
                PollResult::Ready(r) => r,
                PollResult::Pending => {
                    proof {
                        assert(self@.dom() =~= old(self)@.dom());
                        if retried {
                            let (r0, m0) = (before.readiness_spec().0, mask);
                            assert((r0 & !m0) & m0 == 0) by (bit_vector);
                            assert(call_settled(
                                call,
                                before,
                                self@[index],
                                direction,
                                PollResult::Pending,
                            ));
                        }
                    }
                    return PollResult::Pending;
                },
            };
            proof {
                if retried {
                    let (r0, m0) = (before.readiness_spec().0, mask);
                    assert((r0 & !m0) & m0 == 0) by (bit_vector);
                }
            }
            if readiness.is_canceled() {
                sio.clear_readiness(readiness & Ready::canceled());
                proof {
                    assert(self@.dom() =~= old(self)@.dom());
                }
                return PollResult::Ready(
                    CompletionMeta { result: Err(io_error_from_raw_os_error(ECANCELED)), flags: 0 },
                );
            }
            let result = syscall();
            let would_block = match &result {
                Err(e) => matches!(io_error_kind(e), IoErrorKind::WouldBlock),
                Ok(_) => false,
            };
            proof {
                assert(self@.dom() =~= old(self)@.dom());
            }
            let ghost this_result = result;
            match self.settle_call(index, direction, result, would_block) {
                Some(meta) => {
                    proof {
                        assert(call_settled(
                            call,
                            before,
                            self@[index],
                            direction,
                            PollResult::Ready(meta),
                        ));
                    }
                    return PollResult::Ready(meta);
                },
                None => {
                    proof {
                        retried = true;
                        first = this_result;
                    }
                },
            }
        }
    }
}

impl IoDispatch {
    /// Polls a syscall on the resource of `token` for the task of `waker`:
    /// while the resource is not ready in `direction` the task is kept to be
    /// woken and the poll is pending; once it is, the syscall is made. A
    /// syscall that would have blocked clears the direction's readiness and
    /// keeps the task waiting; any other result is handed out.
    pub fn poll_syscall<F: FnOnce() -> Result<MaybeFd, std::io::Error>>(
        &mut self,
        waker: &std::task::Waker,
        token: usize,
        direction: Direction,
        syscall: F,
    ) -> (p: PollResult<CompletionMeta>)
        requires
            old(self).wf(),
            old(self)@.contains_key(token),
            syscall.requires(()),
        ensures
            final(self).wf(),
            same_but(old(self)@, final(self)@, token),
            ({
                let before = old(self)@[token];
                let after = final(self)@[token];
                &&& !before.readiness_spec().meets(direction.mask_bits()) ==> p
                    == PollResult::<CompletionMeta>::Pending && parked(before, after, direction)
                &&& before.readiness_spec().meets(direction.mask_bits()) ==> call_settled(
                    syscall,
                    before,
                    after,
                    direction,
                    p,
                )
            }),
    {
        let ghost before = self@[token];
        let sio = self.slab.get_mut(token).unwrap();
        match sio.poll_readiness(waker, direction) {
            PollResult::Ready(_) => {},
            PollResult::Pending => {
                proof {
                    assert(self@.dom() =~= old(self)@.dom());
                }
                return PollResult::Pending;
            },
        }
        let result = syscall();
        let ghost made = result;
        match result {
            Ok(n) => {
                proof {
                    assert(self@.dom() =~= old(self)@.dom());
                    assert(call_settled(
                        syscall,
                        before,
                        self@[token],
                        direction,
                        PollResult::Ready(CompletionMeta { result: made, flags: 0 }),
                    ));
                }
                PollResult::Ready(CompletionMeta { result: Ok(n), flags: 0 })
            },
            Err(e) => {
                if matches!(io_error_kind(&e), IoErrorKind::WouldBlock) {
                    sio.clear_readiness(direction.mask());
                    sio.set_waker(waker, direction);
                    proof {
                        assert(self@.dom() =~= old(self)@.dom());
                        assert(call_settled(
                            syscall,
                            before,
                            self@[token],
                            direction,
                            PollResult::Pending,
                        ));
                    }
                    PollResult::Pending
                } else {
                    proof {
                        assert(self@.dom() =~= old(self)@.dom());
                        assert(call_settled(
                            syscall,
                            before,
                            self@[token],
                            direction,
                            PollResult::Ready(CompletionMeta { result: made, flags: 0 }),
                        ));
                    }
                    PollResult::Ready(CompletionMeta { result: Err(e), flags: 0 })
                }
            },
        }
    }
}

/// Readiness dispatched to a resource is seen by the next poll in every
/// direction it concerns, and the waker of the task that waited there is
/// the one handed out to be woken.
pub proof fn lemma_dispatched_readiness_is_seen(
    before: ScheduledIo,
    after: ScheduledIo,
    ready: Ready,
    direction: Direction,
)
    requires
        dispatched(before, after, ready),
        ready.meets(direction.mask_bits()),
    ensures
        after.readiness_spec().meets(direction.mask_bits()),
        !after.has_waiter(direction),
        direction == Direction::Read ==> woken_by(before, ready).reader == before.reader_waker(),
        direction == Direction::Write ==> woken_by(before, ready).writer == before.writer_waker(),
{
    let (b, r, m) = (before.readiness_spec().0, ready.0, direction.mask_bits());
    assert(r & m != 0 ==> (b | r) & m != 0) by (bit_vector);
}

/// Cancelling a wait takes out the waker of the task waiting in that
/// direction, and its next poll sees the cancellation, which ends the
/// operation.
pub proof fn lemma_cancel_is_seen(before: ScheduledIo, after: ScheduledIo, direction: Direction)
    requires
        dispatched(
            before,
            after,
            Ready(
                match direction {
                    Direction::Read => READ_CANCELED,
                    Direction::Write => WRITE_CANCELED,
                },
            ),
        ),
    ensures
        after.readiness_spec().0 & direction.mask_bits() != 0,
        (after.readiness_spec().0 & direction.mask_bits()) & CANCELED != 0,
        !after.has_waiter(direction),
{
    let b = before.readiness_spec().0;
    assert((b | 16u8) & 21u8 != 0 && ((b | 16u8) & 21u8) & 48u8 != 0) by (bit_vector);
    assert((b | 32u8) & 42u8 != 0 && ((b | 32u8) & 42u8) & 48u8 != 0) by (bit_vector);
    assert(16u8 & 21u8 != 0 && 32u8 & 42u8 != 0) by (bit_vector);
}

/// Once a syscall would have blocked, the resource is not ready in that
/// direction until new readiness is dispatched: the next poll waits.
pub proof fn lemma_cleared_direction_waits(
    before: ScheduledIo,
    after: ScheduledIo,
    direction: Direction,
)
    requires
        cleared(before, after, direction.mask_bits()),
    ensures
        !after.readiness_spec().meets(direction.mask_bits()),
{
    let (b, m) = (before.readiness_spec().0, direction.mask_bits());
    assert((b & !m) & m == 0) by (bit_vector);
}

/// A syscall that would have blocked clears only its own direction's
/// readiness: the task then waits in that direction, and the readiness of
/// the other direction survives for the operations that wait there. A
/// syscall that completed leaves the slot as it was, and never with a
/// would-block error.
pub proof fn lemma_would_block_keeps_other_direction<F: FnOnce() -> Result<
    MaybeFd,
    std::io::Error,
>>(
    call: F,
    before: ScheduledIo,
    after: ScheduledIo,
    direction: Direction,
    p: PollResult<CompletionMeta>,
)
    requires
        call_settled(call, before, after, direction, p),
    ensures
        p is Pending ==> {
            &&& after.readiness_spec().0 & direction.mask_bits() == 0
            &&& after.readiness_spec().0 & other_direction(direction).mask_bits()
                == before.readiness_spec().0 & other_direction(direction).mask_bits()
            &&& after.has_waiter(direction)
        },
        p matches PollResult::Ready(meta) ==> {
            &&& after == before
            &&& !(meta.result matches Err(e) && would_block(e))
        },
{
    let b = before.readiness_spec().0;
    assert((b & !21u8) & 21u8 == 0 && (b & !21u8) & 42u8 == b & 42u8) by (bit_vector);
    assert((b & !42u8) & 42u8 == 0 && (b & !42u8) & 21u8 == b & 21u8) by (bit_vector);
}

/// Clearing readiness bits removes exactly those bits: every other
/// readiness the slot had survives, and the waiting tasks stay.
pub proof fn lemma_cleared_keeps_other_bits(before: ScheduledIo, after: ScheduledIo, bits: u8)
    requires
        cleared(before, after, bits),
    ensures
        after.readiness_spec().0 & bits == 0,
        after.readiness_spec().0 | (before.readiness_spec().0 & bits) == before.readiness_spec().0,
        after.has_reader() == before.has_reader(),
        after.has_writer() == before.has_writer(),
{
    let b = before.readiness_spec().0;
    assert((b & !bits) & bits == 0 && (b & !bits) | (b & bits) == b) by (bit_vector);
}

/// Dispatched readiness adds to what the slot had: readiness seen before
/// an event is still seen after it, the event's own readiness is seen, and
/// nothing else appears.
pub proof fn lemma_dispatch_adds_readiness(before: ScheduledIo, after: ScheduledIo, ready: Ready)
    requires
        dispatched(before, after, ready),
    ensures
        forall|m: u8| #[trigger] before.readiness_spec().meets(m) ==> after.readiness_spec().meets(m),
        after.readiness_spec().contains_spec(before.readiness_spec()),
        after.readiness_spec().contains_spec(ready),
        after.readiness_spec().0 & !(before.readiness_spec().0 | ready.0) == 0,
{
    let b = before.readiness_spec().0;
    let r = ready.0;
    assert((b | r) & b == b && (b | r) & r == r && (b | r) & !(b | r) == 0) by (bit_vector);
    assert forall|m: u8| #[trigger] before.readiness_spec().meets(m) implies after.readiness_spec().meets(m) by {
        assert(b & m != 0 ==> (b | r) & m != 0) by (bit_vector);
    }
}

} // verus!
