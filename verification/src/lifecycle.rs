//! The lifecycle of operations submitted to a completion-based backend
//! (io_uring, IOCP), and the table of the operations in flight.
use vstd::prelude::*;

use crate::maybe_fd::{result_fd_to_close, wrap_result, CompletionMeta, MaybeFd};
use crate::slab::Slab;
use crate::task::{waker_clone, waker_will_wake, PollResult};

verus! {

broadcast use crate::maybe_fd::MaybeFd::lemma_spec_new;

/// Where a submitted operation stands.
pub enum Lifecycle<P> {
    /// The operation has been submitted and is in flight.
    Submitted,
    /// The submitter waits for the completion of the operation.
    Waiting(std::task::Waker),
    /// The submitter no longer wants the result. The state it handed over is
    /// held here until the operation completes.
    Ignored(Option<P>),
    /// The operation has completed.
    Completed(Result<MaybeFd, std::io::Error>, u32),
}

/// The lifecycle of an operation whose result may be a file descriptor.
pub struct MaybeFdLifecycle<P> {
    pub is_fd: bool,
    pub lifecycle: Lifecycle<P>,
}

impl<P> MaybeFdLifecycle<P> {
    /// A freshly submitted operation; its result is a descriptor when `is_fd`.
    pub fn new(is_fd: bool) -> (l: MaybeFdLifecycle<P>)
        ensures
            l.is_fd == is_fd,
            l.lifecycle is Submitted,
    {
        MaybeFdLifecycle { is_fd, lifecycle: Lifecycle::Submitted }
    }
}

/// How dropping the submitter's interest in an operation ended.
#[derive(Debug, PartialEq, Eq, Structural)]
pub enum DropOutcome {
    /// The operation is still in flight; its state is kept until it completes.
    InFlight,
    /// The operation had completed and is gone. A descriptor it returned is
    /// to be closed by the caller.
    Finished(Option<u32>),
}

/// What completing an operation leaves the caller to do: close a
/// descriptor that nobody will take, and wake the task that waited.
pub struct CompletionOutcome {
    pub to_close: Option<u32>,
    pub woken: Option<std::task::Waker>,
}

/// The waker of the task that waits for operation `index`, if one does.
pub open spec fn waiting_waker<P>(ops: Map<usize, MaybeFdLifecycle<P>>, index: usize) -> Option<
    std::task::Waker,
> {
    match ops[index].lifecycle {
        Lifecycle::Waiting(w) => Some(w),
        _ => None,
    }
}

/// The table after operation `index` completes with `result` and `flags`:
/// an ignored operation leaves the table, any other one holds its wrapped
/// result.
pub open spec fn after_complete<P>(
    ops: Map<usize, MaybeFdLifecycle<P>>,
    index: usize,
    result: Result<u32, std::io::Error>,
    flags: u32,
) -> Map<usize, MaybeFdLifecycle<P>> {
    if ops[index].lifecycle is Ignored {
        ops.remove(index)
    } else {
        ops.insert(
            index,
            MaybeFdLifecycle {
                is_fd: ops[index].is_fd,
                lifecycle: Lifecycle::Completed(wrap_result(result, ops[index].is_fd), flags),
            },
        )
    }
}

/// The descriptor that completing an ignored operation leaves to be closed.
pub open spec fn complete_fd_to_close<P>(
    ops: Map<usize, MaybeFdLifecycle<P>>,
    index: usize,
    result: Result<u32, std::io::Error>,
) -> Option<u32> {
    if ops[index].lifecycle is Ignored {
        result_fd_to_close(wrap_result(result, ops[index].is_fd))
    } else {
        None
    }
}

/// The completion that polling a completed operation hands out.
pub open spec fn completion_of<P>(entry: MaybeFdLifecycle<P>) -> CompletionMeta {
    CompletionMeta {
        result: entry.lifecycle->Completed_0,
        flags: entry.lifecycle->Completed_1,
    }
}

/// `after` is `before` with operation `index` waiting for a task.
pub open spec fn now_waiting<P>(
    before: Map<usize, MaybeFdLifecycle<P>>,
    after: Map<usize, MaybeFdLifecycle<P>>,
    index: usize,
) -> bool {
    &&& after.contains_key(index)
    &&& after[index].lifecycle is Waiting
    &&& after[index].is_fd == before[index].is_fd
    &&& after == before.insert(index, after[index])
}

/// The table after the submitter drops its interest in in-flight operation
/// `index`, handing over `data`.
pub open spec fn after_ignore<P>(
    ops: Map<usize, MaybeFdLifecycle<P>>,
    index: usize,
    data: Option<P>,
) -> Map<usize, MaybeFdLifecycle<P>> {
    ops.insert(index, MaybeFdLifecycle { is_fd: ops[index].is_fd, lifecycle: Lifecycle::Ignored(data) })
}

/// The operations in flight, by the index they were submitted under.
pub struct Ops<P> {
    pub slab: Slab<MaybeFdLifecycle<P>>,
}

impl<P> View for Ops<P> {
    type V = Map<usize, MaybeFdLifecycle<P>>;

    /// The lifecycles, by index.
    open spec fn view(&self) -> Map<usize, MaybeFdLifecycle<P>> {
        self.slab@
    }
}

impl<P> Ops<P> {
    pub open spec fn wf(&self) -> bool {
        self.slab.wf()
    }

    /// No operation in flight.
    pub fn new() -> (o: Ops<P>)
        ensures
            o.wf(),
            o@ == Map::<usize, MaybeFdLifecycle<P>>::empty(),
    {
        Ops { slab: Slab::new() }
    }

    /// Records a newly submitted operation and returns its index.
    pub fn insert(&mut self, is_fd: bool) -> (index: usize)
        requires
            old(self).wf(),
        ensures
            final(self).wf(),
            !old(self)@.contains_key(index),
            final(self)@ == old(self)@.insert(
                index,
                MaybeFdLifecycle { is_fd, lifecycle: Lifecycle::Submitted },
            ),
    {
        self.slab.insert(MaybeFdLifecycle::new(is_fd))
    }

    /// Takes the completion of operation `index`: the result is kept for the
    /// submitter, and the waker of a waiting task is returned to be woken;
    /// the result of an operation nobody wants any more is discarded along
    /// with the operation, and a descriptor in it is returned to be closed.
    pub fn complete(&mut self, index: usize, result: Result<u32, std::io::Error>, flags: u32) -> (
        o: CompletionOutcome)
        requires
            old(self).wf(),
            old(self)@.contains_key(index),
            !(old(self)@[index].lifecycle is Completed),
        ensures
            final(self).wf(),
            final(self)@ == after_complete(old(self)@, index, result, flags),
            o.to_close == complete_fd_to_close(old(self)@, index, result),
            o.woken == waiting_waker(old(self)@, index),
    {
        let entry = self.slab.get_mut(index).unwrap();
        let wrapped = MaybeFd::new_result(result, entry.is_fd);
        match &entry.lifecycle {
            Lifecycle::Ignored(_) => {
                let to_close = match &wrapped {
                    Ok(m) => m.fd_to_close(),
                    Err(_) => None,
                };
                self.slab.remove(index);
                CompletionOutcome { to_close, woken: None }
            },
            _ => {
                let mut old_state = Lifecycle::Completed(wrapped, flags);
                std::mem::swap(&mut entry.lifecycle, &mut old_state);
                let woken = match old_state {
                    Lifecycle::Waiting(waker) => Some(waker),
                    _ => None,
                };
                CompletionOutcome { to_close: None, woken }
            },
        }
    }

    /// Polls operation `index` for the task of `waker`: a completed
    /// operation leaves the table and hands out its result; otherwise the
    /// task is kept to be woken on completion.
    pub fn poll_op(&mut self, index: usize, waker: &std::task::Waker) -> (p: PollResult<
        CompletionMeta,
    >)
        requires
            old(self).wf(),
            old(self)@.contains_key(index),
            !(old(self)@[index].lifecycle is Ignored),
        ensures
            final(self).wf(),
            old(self)@[index].lifecycle is Completed ==> {
                &&& p == PollResult::Ready(completion_of(old(self)@[index]))
                &&& final(self)@ == old(self)@.remove(index)
            },
            !(old(self)@[index].lifecycle is Completed) ==> {
                &&& p == PollResult::<CompletionMeta>::Pending
                &&& now_waiting(old(self)@, final(self)@, index)
            },
    {
        let entry = self.slab.get_mut(index).unwrap();
        match &mut entry.lifecycle {
            Lifecycle::Submitted => {
                entry.lifecycle = Lifecycle::Waiting(waker_clone(waker));
                return PollResult::Pending;
            },
            Lifecycle::Waiting(existing) => {
                if !waker_will_wake(existing, waker) {
                    entry.lifecycle = Lifecycle::Waiting(waker_clone(waker));
                }
                return PollResult::Pending;
            },
            _ => {},
        }
        let removed = self.slab.remove(index).unwrap();
        match removed.lifecycle {
            Lifecycle::Completed(result, flags) => PollResult::Ready(CompletionMeta { result, flags }),
            _ => {
                proof {
                    assert(false);
                }
                PollResult::Pending
            },
        }
    }

    /// The submitter drops its interest in operation `index`. An operation
    /// in flight becomes ignored and keeps the state in `data` alive until
    /// it completes; a completed one leaves the table, and a descriptor in
    /// its result is returned to be closed.
    pub fn drop_op(&mut self, index: usize, data: &mut Option<P>) -> (d: DropOutcome)
        requires
            old(self).wf(),
            old(self)@.contains_key(index),
            !(old(self)@[index].lifecycle is Ignored),
        ensures
            final(self).wf(),
            old(self)@[index].lifecycle is Completed ==> {
                &&& d == DropOutcome::Finished(
                    result_fd_to_close(old(self)@[index].lifecycle->Completed_0),
                )
                &&& final(self)@ == old(self)@.remove(index)
                &&& *final(data) == *old(data)
            },
            !(old(self)@[index].lifecycle is Completed) ==> {
                &&& d == DropOutcome::InFlight
                &&& final(self)@ == after_ignore(old(self)@, index, *old(data))
                &&& *final(data) == None::<P>
            },
    {
        let entry = self.slab.get_mut(index).unwrap();
        match &entry.lifecycle {
            Lifecycle::Submitted | Lifecycle::Waiting(_) => {
                entry.lifecycle = Lifecycle::Ignored(data.take());
                return DropOutcome::InFlight;
            },
            _ => {},
        }
        let removed = self.slab.remove(index).unwrap();
        match removed.lifecycle {
            Lifecycle::Completed(result, _) => {
                let to_close = match &result {
                    Ok(m) => m.fd_to_close(),
                    Err(_) => None,
                };
                DropOutcome::Finished(to_close)
            },
            _ => {
                proof {
                    assert(false);
                }
                DropOutcome::InFlight
            },
        }
    }
}

/// A result written by a completion is what the next poll reads: after an
/// operation in flight completes, polling it hands out its wrapped result and
/// flags and takes it out of the table, leaving the table as it was before
/// the operation was submitted.
pub proof fn lemma_completion_is_delivered<P>(
    submitted: Map<usize, MaybeFdLifecycle<P>>,
    index: usize,
    result: Result<u32, std::io::Error>,
    flags: u32,
)
    requires
        submitted.contains_key(index),
        submitted[index].lifecycle is Submitted || submitted[index].lifecycle is Waiting,
    ensures
        ({
            let completed = after_complete(submitted, index, result, flags);
            &&& completed.contains_key(index)
            &&& completed[index].lifecycle is Completed
            &&& completion_of(completed[index]) == (CompletionMeta {
                result: wrap_result(result, submitted[index].is_fd),
                flags,
            })
            &&& completed.remove(index) == submitted.remove(index)
            &&& complete_fd_to_close(submitted, index, result) == None::<u32>
        }),
{
    let completed = after_complete(submitted, index, result, flags);
    assert(completed.remove(index) =~= submitted.remove(index));
}

/// A descriptor never leaks when its operation is cancelled: an operation
/// whose submitter dropped it while in flight leaves the table when it
/// completes, and a descriptor it returns is handed back to be closed.
pub proof fn lemma_ignored_completion_closes_fd<P>(
    submitted: Map<usize, MaybeFdLifecycle<P>>,
    index: usize,
    data: Option<P>,
    fd: u32,
    flags: u32,
)
    requires
        submitted.contains_key(index),
        submitted[index].lifecycle is Submitted || submitted[index].lifecycle is Waiting,
        submitted[index].is_fd,
    ensures
        ({
            let ignored = after_ignore(submitted, index, data);
            &&& after_complete(ignored, index, Ok(fd), flags) == submitted.remove(index)
            &&& complete_fd_to_close(ignored, index, Ok(fd)) == Some(fd)
        }),
{
    let ignored = after_ignore(submitted, index, data);
    assert(after_complete(ignored, index, Ok(fd), flags) =~= submitted.remove(index));
}

/// Completing an operation leaves a descriptor to close only when the
/// operation was abandoned while in flight and its result is a descriptor
/// it owns: a byte count or any other plain number is never closed, and an
/// operation still wanted keeps its descriptor for the submitter.
pub proof fn lemma_completion_closes_only_owned_fds<P>(
    ops: Map<usize, MaybeFdLifecycle<P>>,
    index: usize,
    result: Result<u32, std::io::Error>,
)
    ensures
        complete_fd_to_close(ops, index, result) == (if ops[index].lifecycle is Ignored
            && ops[index].is_fd && result is Ok {
            Some(result->Ok_0)
        } else {
            None::<u32>
        }),
        !ops[index].is_fd ==> complete_fd_to_close(ops, index, result) is None,
{
}

} // verus!
