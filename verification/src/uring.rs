//! The io_uring driver's bookkeeping: what a completion-queue entry means,
//! the operations in flight, and what parking the driver has to do.
use vstd::prelude::*;

use crate::lifecycle::{
    after_complete, complete_fd_to_close, waiting_waker, CompletionOutcome, DropOutcome, Lifecycle,
    Ops,
};
use crate::lifecycle::{MaybeFdLifecycle, after_ignore, completion_of, now_waiting};
use crate::maybe_fd::{
    error_kind_of, io_error_from_raw_os_error, io_error_kind, os_error_code_of, result_fd_to_close,
    CompletionMeta, IoErrorKind,
};
use crate::task::PollResult;

verus! {

/// User data of the cancel requests the driver pushes itself.
pub const CANCEL_USERDATA: u64 = 0xffff_ffff_ffff_ffff;

/// User data of the driver's own timeout request.
pub const TIMEOUT_USERDATA: u64 = 0xffff_ffff_ffff_fffe;

/// User data of the driver's own eventfd read.
pub const EVENTFD_USERDATA: u64 = 0xffff_ffff_ffff_fffd;

/// User data from here up belongs to the driver, not to an operation.
pub const MIN_REVERSED_USERDATA: u64 = 0xffff_ffff_ffff_fffd;

/// The OS error code that a negative `res` field encodes: its negation
/// (`i32::MIN`, which has none, stands for itself).
pub open spec fn negated_code(res: i32) -> i32 {
    if res == i32::MIN {
        i32::MIN
    } else {
        (-res) as i32
    }
}

/// The result that a completion-queue entry's `res` field encodes: a
/// non-negative value is the syscall's return value, a negative one the
/// negated OS error code.
pub fn resultify(res: i32) -> (r: Result<u32, std::io::Error>)
    ensures
        res >= 0 ==> r == Ok::<u32, std::io::Error>(res as u32),
        res < 0 ==> (r matches Err(e) && os_error_code_of(e) == Some(negated_code(res))),
{
    if res >= 0 {
        Ok(res as u32)
    } else {
        let code: i32 = if res == i32::MIN {
            i32::MIN
        } else {
            -res
        };
        Err(io_error_from_raw_os_error(code))
    }
}

/// What parking the driver has to do before it waits.
#[derive(Debug, Clone, Copy, PartialEq, Eq, Structural)]
pub struct ParkPlan {
    /// Submission-queue slots the driver's own requests need.
    pub space: usize,
    /// Push the read of the eventfd that another thread writes to unpark.
    pub install_eventfd: bool,
    /// Push a timeout request.
    pub install_timeout: bool,
    /// Submit and wait for a completion; otherwise only submit.
    pub wait: bool,
}

/// Plans a park: a driver that has to wait (no foreign waker was handled)
/// makes sure its eventfd read is in the ring and, with a timeout, pushes a
/// timeout request, then submits and waits; otherwise it only submits.
pub fn park_plan(need_wait: bool, eventfd_installed: bool, has_timeout: bool) -> (p: ParkPlan)
    ensures
        p.wait == need_wait,
        p.install_eventfd == (need_wait && !eventfd_installed),
        p.install_timeout == (need_wait && has_timeout),
        p.space == (if p.install_eventfd {
            1usize
        } else {
            0usize
        }) + (if p.install_timeout {
            1usize
        } else {
            0usize
        }),
{
    let mut space: usize = 0;
    let mut install_eventfd = false;
    let mut install_timeout = false;
    if need_wait {
        if !eventfd_installed {
            space += 1;
            install_eventfd = true;
        }
        if has_timeout {
            space += 1;
            install_timeout = true;
        }
    }
    ParkPlan { space, install_eventfd, install_timeout, wait: need_wait }
}

/// Whether the submission queue has to be flushed to the kernel before
/// `need` more entries fit in it.
pub fn needs_flush(len: usize, capacity: usize, need: usize) -> (b: bool)
    ensures
        b == (len + need > capacity),
{
    len as u128 + need as u128 > capacity as u128
}

/// What to do after submitting the queue to the kernel.
#[derive(Debug)]
pub enum SubmitStep {
    /// The entries were taken.
    Done,
    /// The kernel is busy (its completion queue is full): take the
    /// completions, then submit again.
    Retry,
    /// Submitting failed with this error.
    Fail(std::io::Error),
}

/// Decides what a submit's result `r` asks for: success is done; an error
/// of kind `Other` or `ResourceBusy` means the completion queue has to be
/// drained first and the submit retried; any other error is passed on.
pub fn submit_step(r: Result<usize, std::io::Error>) -> (s: SubmitStep)
    ensures
        r is Ok ==> s is Done,
        r matches Err(e) ==> if error_kind_of(e) == IoErrorKind::Other || error_kind_of(e)
            == IoErrorKind::ResourceBusy {
            s is Retry
        } else {
            s matches SubmitStep::Fail(e2) && e2 == e
        },
{
    match r {
        Ok(_) => SubmitStep::Done,
        Err(e) => {
            let kind = io_error_kind(&e);
            if matches!(kind, IoErrorKind::Other) || matches!(kind, IoErrorKind::ResourceBusy) {
                SubmitStep::Retry
            } else {
                SubmitStep::Fail(e)
            }
        },
    }
}

/// The io_uring driver's operations in flight, and whether its eventfd
/// read is in the ring.
pub struct UringInner<P> {
    pub ops: Ops<P>,
    pub eventfd_installed: bool,
}

impl<P> UringInner<P> {
    pub open spec fn wf(&self) -> bool {
        self.ops.wf()
    }

    /// No operation in flight, no eventfd read in the ring.
    pub fn new() -> (u: UringInner<P>)
        ensures
            u.wf(),
            u.ops@ == Map::<usize, MaybeFdLifecycle<P>>::empty(),
            !u.eventfd_installed,
    {
        UringInner { ops: Ops::new(), eventfd_installed: false }
    }

    /// Records a new operation; its index is the user data of its
    /// submission entry.
    pub fn new_op(&mut self, is_fd: bool) -> (index: usize)
        requires
            old(self).wf(),
        ensures
            final(self).wf(),
            final(self).eventfd_installed == old(self).eventfd_installed,
            !old(self).ops@.contains_key(index),
            final(self).ops@ == old(self).ops@.insert(
                index,
                MaybeFdLifecycle { is_fd, lifecycle: Lifecycle::Submitted },
            ),
    {
        self.ops.insert(is_fd)
    }

    /// Takes one completion-queue entry. Entries with the driver's own user
    /// data complete no operation; the eventfd read's entry means it has to
    /// be installed again. Any other entry completes the operation its user
    /// data names: a descriptor left over from an operation nobody waits
    /// for is returned to be closed, and the waker of a task that waits for
    /// the operation is returned to be woken.
    pub fn complete_entry(&mut self, user_data: u64, res: i32, flags: u32) -> (o:
        CompletionOutcome)
        requires
            old(self).wf(),
            user_data < MIN_REVERSED_USERDATA ==> {
                &&& user_data <= usize::MAX
                &&& old(self).ops@.contains_key(user_data as usize)
                &&& !(old(self).ops@[user_data as usize].lifecycle is Completed)
            },
        ensures
            final(self).wf(),
            user_data >= MIN_REVERSED_USERDATA ==> {
                &&& o.to_close is None
                &&& o.woken is None
                &&& final(self).ops@ == old(self).ops@
                &&& final(self).eventfd_installed == (old(self).eventfd_installed && user_data
                    != EVENTFD_USERDATA)
            },
            user_data < MIN_REVERSED_USERDATA ==> {
                &&& final(self).eventfd_installed == old(self).eventfd_installed
                &&& o.woken == waiting_waker(old(self).ops@, user_data as usize)
                &&& exists|r: Result<u32, std::io::Error>|
                    {
                        &&& (res >= 0 ==> r == Ok::<u32, std::io::Error>(res as u32))
                        &&& (res < 0 ==> (r matches Err(e) && os_error_code_of(e) == Some(
                            negated_code(res),
                        )))
                        &&& #[trigger] completed_as(
                            old(self).ops@,
                            final(self).ops@,
                            user_data as usize,
                            r,
                            flags,
                            o.to_close,
                        )
                    }
            },
    {
        if user_data >= MIN_REVERSED_USERDATA {
            if user_data == EVENTFD_USERDATA {
                self.eventfd_installed = false;
            }
            return CompletionOutcome { to_close: None, woken: None };
        }
        let index = user_data as usize;
        let result = resultify(res);
        let ghost r = result;
        let o = self.ops.complete(index, result, flags);
        proof {
            assert(completed_as(old(self).ops@, self.ops@, index, r, flags, o.to_close));
        }
        o
    }

    /// Polls operation `index` for the task of `waker`.
    pub fn poll_op(&mut self, index: usize, waker: &std::task::Waker) -> (p: PollResult<
        CompletionMeta,
    >)
        requires
            old(self).wf(),
            old(self).ops@.contains_key(index),
            !(old(self).ops@[index].lifecycle is Ignored),
        ensures
            final(self).wf(),
            final(self).eventfd_installed == old(self).eventfd_installed,
            old(self).ops@[index].lifecycle is Completed ==> {
                &&& p == PollResult::Ready(completion_of(old(self).ops@[index]))
                &&& final(self).ops@ == old(self).ops@.remove(index)
            },
            !(old(self).ops@[index].lifecycle is Completed) ==> {
                &&& p == PollResult::<CompletionMeta>::Pending
                &&& now_waiting(old(self).ops@, final(self).ops@, index)
            },
    {
        self.ops.poll_op(index, waker)
    }

    /// The submitter drops operation `index`. An operation that already
    /// handed out its result (`usize::MAX`) or is unknown is left alone;
    /// otherwise its lifecycle decides, and `None` is never returned for it.
    pub fn drop_op(&mut self, index: usize, data: &mut Option<P>) -> (d: Option<DropOutcome>)
        requires
            old(self).wf(),
            index != usize::MAX && old(self).ops@.contains_key(index) ==> !(old(
                self,
            ).ops@[index].lifecycle is Ignored),
        ensures
            final(self).wf(),
            final(self).eventfd_installed == old(self).eventfd_installed,
            (index == usize::MAX || !old(self).ops@.contains_key(index)) ==> {
                &&& d is None
                &&& final(self).ops@ == old(self).ops@
                &&& *final(data) == *old(data)
            },
            (index != usize::MAX && old(self).ops@.contains_key(index)) ==> {
                &&& old(self).ops@[index].lifecycle is Completed ==> {
                    &&& d == Some(
                        DropOutcome::Finished(
                            result_fd_to_close(old(self).ops@[index].lifecycle->Completed_0),
                        ),
                    )
                    &&& final(self).ops@ == old(self).ops@.remove(index)
                    &&& *final(data) == *old(data)
                }
                &&& !(old(self).ops@[index].lifecycle is Completed) ==> {
                    &&& d == Some(DropOutcome::InFlight)
                    &&& final(self).ops@ == after_ignore(old(self).ops@, index, *old(data))
                    &&& *final(data) == None::<P>
                }
            },
    {
        if index == usize::MAX {
            return None;
        }
        if self.ops.slab.get(index).is_none() {
            return None;
        }
        Some(self.ops.drop_op(index, data))
    }
}

/// `after` and `to_close` are what completing operation `index` of `before`
/// with result `r` and `flags` gives.
pub open spec fn completed_as<P>(
    before: Map<usize, MaybeFdLifecycle<P>>,
    after: Map<usize, MaybeFdLifecycle<P>>,
    index: usize,
    r: Result<u32, std::io::Error>,
    flags: u32,
    to_close: Option<u32>,
) -> bool {
    &&& after == after_complete(before, index, r, flags)
    &&& to_close == complete_fd_to_close(before, index, r)
}

} // verus!
