//! What an operation waits for, and how it is cancelled.
use vstd::prelude::*;

use crate::maybe_fd::{
    error_kind_of, io_error_from_kind, io_error_raw_os_error, os_error_code_of, IoErrorKind, MaybeFd,
};
use crate::ready::Direction;

verus! {

/// What cancelling an operation addresses: the index of a completion
/// operation, or the token and direction of a readiness wait.
#[derive(Debug, Eq, PartialEq, Structural, Clone, Copy, Hash)]
pub struct OpCanceller {
    pub index: usize,
    pub direction: Option<Direction>,
}

/// The canceller of an operation submitted under `index`. Under the
/// readiness driver it addresses the readiness the operation waits for,
/// and nothing (index 0, no direction) when it waits for none; otherwise it
/// addresses the submitted operation.
pub fn op_canceller(
    legacy: bool,
    legacy_interest: Option<(Direction, usize)>,
    index: usize,
) -> (c: OpCanceller)
    ensures
        legacy ==> c == match legacy_interest {
            Some((direction, id)) => OpCanceller { index: id, direction: Some(direction) },
            None => OpCanceller { index: 0, direction: None },
        },
        !legacy ==> c == (OpCanceller { index, direction: None }),
{
    if legacy {
        return if let Some((dir, id)) = legacy_interest {
            OpCanceller { index: id, direction: Some(dir) }
        } else {
            OpCanceller { index: 0, direction: None }
        };
    }
    OpCanceller { index, direction: None }
}

/// The readiness a poll operation waits for: reading or writing on the
/// descriptor's token, if it has one.
pub fn poll_add_interest(is_read: bool, registered_index: Option<usize>) -> (i: Option<
    (Direction, usize),
>)
    ensures
        i == match registered_index {
            Some(idx) => Some(
                (
                    if is_read {
                        Direction::Read
                    } else {
                        Direction::Write
                    },
                    idx,
                ),
            ),
            None => None,
        },
{
    match registered_index {
        Some(idx) => Some(
            (
                if is_read {
                    Direction::Read
                } else {
                    Direction::Write
                },
                idx,
            ),
        ),
        None => None,
    }
}

/// Which end of a splice is the pipe.
#[derive(Debug, Eq, PartialEq, Structural, Clone, Copy)]
pub enum SpliceDirection {
    FromPipe,
    ToPipe,
}

/// The readiness a splice waits for: writing to the output when it drains
/// a pipe, reading from the input when it fills one, on that descriptor's
/// token if it has one.
pub fn splice_interest(
    direction: SpliceDirection,
    in_index: Option<usize>,
    out_index: Option<usize>,
) -> (i: Option<(Direction, usize)>)
    ensures
        i == match direction {
            SpliceDirection::FromPipe => match out_index {
                Some(idx) => Some((Direction::Write, idx)),
                None => None,
            },
            SpliceDirection::ToPipe => match in_index {
                Some(idx) => Some((Direction::Read, idx)),
                None => None,
            },
        },
{
    match direction {
        SpliceDirection::FromPipe => match out_index {
            Some(idx) => Some((Direction::Write, idx)),
            None => None,
        },
        SpliceDirection::ToPipe => match in_index {
            Some(idx) => Some((Direction::Read, idx)),
            None => None,
        },
    }
}

/// The outcome of a connect syscall on descriptor `fd`, given the OS error
/// code of a failure and the platform's `EINPROGRESS` code (`in_progress`):
/// success, and a failure with `EINPROGRESS` (the connect goes on in the
/// background), both yield the descriptor; any other failure is passed on.
pub fn settle_connect(
    result: Result<u32, std::io::Error>,
    os_error: Option<i32>,
    in_progress: i32,
    fd: u32,
) -> (r: Result<u32, std::io::Error>)
    ensures
        match result {
            Ok(_) => r == Ok::<u32, std::io::Error>(fd),
            Err(e) => if os_error == Some(in_progress) {
                r == Ok::<u32, std::io::Error>(fd)
            } else {
                r == Err::<u32, std::io::Error>(e)
            },
        },
{
    match result {
        Err(e) => {
            if os_error == Some(in_progress) {
                Ok(fd)
            } else {
                Err(e)
            }
        },
        Ok(_) => Ok(fd),
    }
}

/// The outcome of a connect syscall on descriptor `fd`, given the
/// platform's `EINPROGRESS` code (`in_progress`): the descriptor, unless the
/// syscall failed with another error than `EINPROGRESS`, which is passed on.
/// The error's OS code is read from the error itself.
pub fn connect_result(result: Result<u32, std::io::Error>, in_progress: i32, fd: u32) -> (r:
    Result<u32, std::io::Error>)
    ensures
        result is Ok ==> r == Ok::<u32, std::io::Error>(fd),
        result matches Err(e) ==> r == (if os_error_code_of(e) == Some(in_progress) {
            Ok::<u32, std::io::Error>(fd)
        } else {
            Err::<u32, std::io::Error>(e)
        }),
{
    let os_error = match &result {
        Err(e) => io_error_raw_os_error(e),
        Ok(_) => None,
    };
    settle_connect(result, os_error, in_progress, fd)
}

/// The result of a poll operation under the readiness driver. A relaxed
/// poll makes no syscall (`polled` is `None`) and counts as ready; otherwise
/// `polled` is what the zero-timeout `poll` syscall returned: a failure is
/// passed on, no descriptor ready (0) would have blocked, and any other
/// count is ready. Ready is the plain number 1.
pub fn settle_poll_add(polled: Option<Result<i32, std::io::Error>>) -> (r: Result<
    MaybeFd,
    std::io::Error,
>)
    ensures
        match polled {
            Some(Err(e)) => r == Err::<MaybeFd, std::io::Error>(e),
            Some(Ok(0i32)) => r matches Err(e) && error_kind_of(e) == IoErrorKind::WouldBlock
                && os_error_code_of(e) is None,
            _ => r matches Ok(m) && !m.spec_is_fd() && m.spec_fd() == 1,
        },
{
    match polled {
        Some(Err(e)) => Err(e),
        Some(Ok(0)) => Err(io_error_from_kind(IoErrorKind::WouldBlock)),
        _ => Ok(MaybeFd::new_non_fd(1)),
    }
}

} // verus!
