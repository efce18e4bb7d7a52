//! The readiness of one registered I/O resource and the tasks waiting on it.
use vstd::prelude::*;

use crate::ready::{Direction, Ready, READ_ALL, WRITABLE, WRITE_ALL};
use crate::task::{waker_clone, waker_clone_from, waker_will_wake, PollResult};

verus! {

/// The readiness an I/O resource has reported, and the task waiting to
/// read from it and the task waiting to write to it.
pub struct ScheduledIo {
    readiness: Ready,
    /// Waker used for reads.
    reader: Option<std::task::Waker>,
    /// Waker used for writes.
    writer: Option<std::task::Waker>,
}

impl ScheduledIo {
    /// The readiness reported and not yet cleared.
    pub closed spec fn readiness_spec(&self) -> Ready {
        self.readiness
    }

    /// The waker of the task waiting to read, if any.
    pub closed spec fn reader_waker(&self) -> Option<std::task::Waker> {
        self.reader
    }

    /// The waker of the task waiting to write, if any.
    pub closed spec fn writer_waker(&self) -> Option<std::task::Waker> {
        self.writer
    }

    /// A task waits to read.
    pub open spec fn has_reader(&self) -> bool {
        self.reader_waker() is Some
    }

    /// A task waits to write.
    pub open spec fn has_writer(&self) -> bool {
        self.writer_waker() is Some
    }

    /// A task waits in `direction`.
    pub open spec fn has_waiter(&self, direction: Direction) -> bool {
        match direction {
            Direction::Read => self.has_reader(),
            Direction::Write => self.has_writer(),
        }
    }

    /// No readiness and no waiting task.
    pub fn new() -> (s: ScheduledIo)
        ensures
            s.readiness_spec().0 == 0,
            !s.has_reader(),
            !s.has_writer(),
    {
        ScheduledIo { readiness: Ready::empty(), reader: None, writer: None }
    }

    /// Adds writable readiness.
    pub fn set_writable(&mut self)
        ensures
            final(self).readiness_spec().0 == old(self).readiness_spec().0 | WRITABLE,
            final(self).reader_waker() == old(self).reader_waker(),
            final(self).writer_waker() == old(self).writer_waker(),
    {
        self.readiness = self.readiness | Ready::writable();
    }

    /// Replaces the readiness with what `f` makes of it.
    pub fn set_readiness<F: Fn(Ready) -> Ready>(&mut self, f: F)
        requires
            f.requires((old(self).readiness_spec(),)),
        ensures
            f.ensures((old(self).readiness_spec(),), final(self).readiness_spec()),
            final(self).reader_waker() == old(self).reader_waker(),
            final(self).writer_waker() == old(self).writer_waker(),
    {
        self.readiness = f(self.readiness);
    }

    /// Takes out the wakers of the tasks that readiness `ready` concerns:
    /// the reader's when it holds read-side readiness, the writer's when it
    /// holds write-side readiness. The caller wakes them.
    pub fn wake(&mut self, ready: Ready) -> (w: Woken)
        ensures
            w == woken_by(*old(self), ready),
            final(self).readiness_spec() == old(self).readiness_spec(),
            final(self).reader_waker() == (if ready.meets(READ_ALL) {
                None
            } else {
                old(self).reader_waker()
            }),
            final(self).writer_waker() == (if ready.meets(WRITE_ALL) {
                None
            } else {
                old(self).writer_waker()
            }),
    {
        let mut woken = Woken { reader: None, writer: None };
        if ready.is_readable() {
            woken.reader = self.reader.take();
        }
        if ready.is_writable() {
            woken.writer = self.writer.take();
        }
        woken
    }

    /// Removes `ready` from the readiness.
    pub fn clear_readiness(&mut self, ready: Ready)
        ensures
            final(self).readiness_spec().0 == old(self).readiness_spec().0 & !ready.0,
            final(self).reader_waker() == old(self).reader_waker(),
            final(self).writer_waker() == old(self).writer_waker(),
    {
        self.readiness = self.readiness - ready;
    }

    /// The readiness in `direction`, when there is some; otherwise the task
    /// of `waker` is kept to be woken for `direction`, and the poll is
    /// pending.
    pub fn poll_readiness(&mut self, waker: &std::task::Waker, direction: Direction) -> (p:
        PollResult<Ready>)
        ensures
            final(self).readiness_spec() == old(self).readiness_spec(),
            old(self).readiness_spec().meets(direction.mask_bits()) ==> {
                &&& p == PollResult::Ready(
                    Ready(old(self).readiness_spec().0 & direction.mask_bits()),
                )
                &&& *final(self) == *old(self)
            },
            !old(self).readiness_spec().meets(direction.mask_bits()) ==> {
                &&& p == PollResult::<Ready>::Pending
                &&& final(self).has_waiter(direction)
                &&& final(self).has_waiter(other_direction(direction)) == old(self).has_waiter(
                    other_direction(direction),
                )
            },
    {
        let ready = direction.mask() & self.readiness;
        proof {
            let (m, r) = (direction.mask_bits(), self.readiness.0);
            assert(m & r == r & m) by (bit_vector);
        }
        if !ready.is_empty() {
            return PollResult::Ready(ready);
        }
        self.set_waker(waker, direction);
        PollResult::Pending
    }

    /// Keeps the task of `waker` to be woken for `direction`, unless the
    /// waker kept there already wakes that task.
    pub fn set_waker(&mut self, waker: &std::task::Waker, direction: Direction)
        ensures
            final(self).readiness_spec() == old(self).readiness_spec(),
            final(self).has_waiter(direction),
            final(self).has_waiter(other_direction(direction)) == old(self).has_waiter(
                other_direction(direction),
            ),
    {
        match direction {
            Direction::Read => {
                match &mut self.reader {
                    Some(existing) => {
                        if !waker_will_wake(existing, waker) {
                            waker_clone_from(existing, waker);
                        }
                    },
                    None => {
                        self.reader = Some(waker_clone(waker));
                    },
                }
            },
            Direction::Write => {
                match &mut self.writer {
                    Some(existing) => {
                        if !waker_will_wake(existing, waker) {
                            waker_clone_from(existing, waker);
                        }
                    },
                    None => {
                        self.writer = Some(waker_clone(waker));
                    },
                }
            },
        }
    }
}

impl Default for ScheduledIo {
    fn default() -> (s: ScheduledIo)
        ensures
            s.readiness_spec().0 == 0,
            !s.has_reader(),
            !s.has_writer(),
    {
        Self::new()
    }
}

/// The wakers of tasks to wake: the reader's and the writer's.
pub struct Woken {
    pub reader: Option<std::task::Waker>,
    pub writer: Option<std::task::Waker>,
}

/// The wakers that readiness `ready` takes out of `sio`.
pub open spec fn woken_by(sio: ScheduledIo, ready: Ready) -> Woken {
    Woken {
        reader: if ready.meets(READ_ALL) {
            sio.reader_waker()
        } else {
            None
        },
        writer: if ready.meets(WRITE_ALL) {
            sio.writer_waker()
        } else {
            None
        },
    }
}

/// The direction that is not `direction`.
pub open spec fn other_direction(direction: Direction) -> Direction {
    match direction {
        Direction::Read => Direction::Write,
        Direction::Write => Direction::Read,
    }
}

/// Readiness hands out the waker of every task it concerns and of no
/// other: the reader's exactly when a reader waits and the readiness holds
/// read-side readiness, the writer's likewise on the write side, and each
/// handed-out waker is the one that task left.
pub proof fn lemma_woken_are_the_waiting_tasks(sio: ScheduledIo, ready: Ready)
    ensures
        woken_by(sio, ready).reader is Some <==> (sio.has_reader() && ready.meets(READ_ALL)),
        woken_by(sio, ready).writer is Some <==> (sio.has_writer() && ready.meets(WRITE_ALL)),
        woken_by(sio, ready).reader is Some ==> woken_by(sio, ready).reader == sio.reader_waker(),
        woken_by(sio, ready).writer is Some ==> woken_by(sio, ready).writer == sio.writer_waker(),
{
}

} // verus!
