//! Results of completed operations: a number that may be a file descriptor
//! the holder has to close.
use vstd::prelude::*;

verus! {

#[verifier::external_type_specification]
#[verifier::external_body]
pub struct ExIoError(std::io::Error);

/// The kinds of I/O error that the drivers tell apart; every other kind is
/// `Unlisted`.
#[derive(Debug, Clone, Copy, PartialEq, Eq, Structural)]
pub enum IoErrorKind {
    WouldBlock,
    Interrupted,
    Other,
    ResourceBusy,
    Unlisted,
}

/// What `std::io::Error::raw_os_error` answers for an error: the OS error
/// code it carries, if it carries one.
pub uninterp spec fn os_error_code_of(e: std::io::Error) -> Option<i32>;

/// What `std::io::Error::kind` answers for an error, among the kinds the
/// drivers tell apart.
pub uninterp spec fn error_kind_of(e: std::io::Error) -> IoErrorKind;

/// `std::io::Error::from_raw_os_error`: the error of OS error code `code`.
/// Its documentation says that `raw_os_error` gives the code back.
#[verifier::external_body]
pub(crate) fn io_error_from_raw_os_error(code: i32) -> (e: std::io::Error)
    ensures
        os_error_code_of(e) == Some(code),
{
    std::io::Error::from_raw_os_error(code)
}

/// `std::io::Error::raw_os_error`: the OS error code the error carries, if
/// it carries one.
#[verifier::external_body]
pub(crate) fn io_error_raw_os_error(e: &std::io::Error) -> (c: Option<i32>)
    ensures
        c == os_error_code_of(*e),
{
    e.raw_os_error()
}

/// `std::io::Error::kind`, sorted into the kinds the drivers tell apart.
#[verifier::external_body]
pub(crate) fn io_error_kind(e: &std::io::Error) -> (k: IoErrorKind)
    ensures
        k == error_kind_of(*e),
{
    match e.kind() {
        std::io::ErrorKind::WouldBlock => IoErrorKind::WouldBlock,
        std::io::ErrorKind::Interrupted => IoErrorKind::Interrupted,
        std::io::ErrorKind::Other => IoErrorKind::Other,
        std::io::ErrorKind::ResourceBusy => IoErrorKind::ResourceBusy,
        _ => IoErrorKind::Unlisted,
    }
}

/// `<std::io::Error as From<std::io::ErrorKind>>::from`: an error of kind
/// `kind` alone. Its documentation says the error has that kind; it is not
/// made from an OS error code, so it carries none.
#[verifier::external_body]
pub(crate) fn io_error_from_kind(kind: IoErrorKind) -> (e: std::io::Error)
    requires
        kind != IoErrorKind::Unlisted,
    ensures
        error_kind_of(e) == kind,
        os_error_code_of(e) is None,
{
    match kind {
        IoErrorKind::WouldBlock => std::io::ErrorKind::WouldBlock.into(),
        IoErrorKind::Interrupted => std::io::ErrorKind::Interrupted.into(),
        IoErrorKind::Other => std::io::ErrorKind::Other.into(),
        IoErrorKind::ResourceBusy => std::io::ErrorKind::ResourceBusy.into(),
        IoErrorKind::Unlisted => std::io::ErrorKind::Other.into(),
    }
}

/// Whether an error says that the operation would have blocked.
pub open spec fn would_block(e: std::io::Error) -> bool {
    error_kind_of(e) == IoErrorKind::WouldBlock
}

/// Whether a result is an error that says the operation would have blocked.
pub open spec fn result_would_block<T>(r: Result<T, std::io::Error>) -> bool {
    r matches Err(e) && would_block(e)
}

/// A file descriptor or a plain number that a syscall returned. One marked
/// as a file descriptor is owned: whoever drops it without taking the number
/// out with `into_inner` closes it. This keeps a descriptor from leaking
/// when the operation that produced it was cancelled.
#[derive(Debug)]
pub struct MaybeFd {
    is_fd: bool,
    fd: u32,
}

impl MaybeFd {
    /// Whether the number is an owned file descriptor.
    pub closed spec fn spec_is_fd(&self) -> bool {
        self.is_fd
    }

    /// The number.
    pub closed spec fn spec_fd(&self) -> u32 {
        self.fd
    }

    /// The value holding `fd`, marked as a descriptor when `is_fd`.
    pub closed spec fn spec_new(is_fd: bool, fd: u32) -> MaybeFd {
        MaybeFd { is_fd, fd }
    }

    /// A value is determined by its mark and its number.
    pub broadcast proof fn lemma_spec_new(is_fd: bool, fd: u32)
        ensures
            #[trigger] MaybeFd::spec_new(is_fd, fd).spec_is_fd() == is_fd,
            MaybeFd::spec_new(is_fd, fd).spec_fd() == fd,
    {
    }

    /// Wraps the number of a successful syscall, marked as a descriptor or
    /// not; an error is passed on as it is.
    pub fn new_result(fdr: Result<u32, std::io::Error>, is_fd: bool) -> (r: Result<
        MaybeFd,
        std::io::Error,
    >)
        ensures
            r == wrap_result(fdr, is_fd),
            match fdr {
                Ok(fd) => r matches Ok(m) && m.spec_is_fd() == is_fd && m.spec_fd() == fd,
                Err(e) => r == Err::<MaybeFd, std::io::Error>(e),
            },
    {
        match fdr {
            Ok(fd) => Ok(MaybeFd { is_fd, fd }),
            Err(e) => Err(e),
        }
    }

    /// Wraps the descriptor that a successful syscall returned.
    pub fn new_fd_result(fdr: Result<u32, std::io::Error>) -> (r: Result<MaybeFd, std::io::Error>)
        ensures
            match fdr {
                Ok(fd) => r matches Ok(m) && m.spec_is_fd() && m.spec_fd() == fd,
                Err(e) => r == Err::<MaybeFd, std::io::Error>(e),
            },
    {
        Self::new_result(fdr, true)
    }

    /// Wraps the plain number that a successful syscall returned.
    pub fn new_non_fd_result(fdr: Result<u32, std::io::Error>) -> (r: Result<
        MaybeFd,
        std::io::Error,
    >)
        ensures
            match fdr {
                Ok(fd) => r matches Ok(m) && !m.spec_is_fd() && m.spec_fd() == fd,
                Err(e) => r == Err::<MaybeFd, std::io::Error>(e),
            },
    {
        Self::new_result(fdr, false)
    }

    /// An owned file descriptor.
    pub fn new_fd(fd: u32) -> (m: MaybeFd)
        ensures
            m.spec_is_fd(),
            m.spec_fd() == fd,
    {
        MaybeFd { is_fd: true, fd }
    }

    /// A plain number.
    pub fn new_non_fd(fd: u32) -> (m: MaybeFd)
        ensures
            !m.spec_is_fd(),
            m.spec_fd() == fd,
    {
        MaybeFd { is_fd: false, fd }
    }

    /// Takes the number out; the caller owns a descriptor from here on.
    pub fn into_inner(self) -> (fd: u32)
        ensures
            fd == self.spec_fd(),
    {
        self.fd
    }

    /// The plain number zero.
    pub fn zero() -> (m: MaybeFd)
        ensures
            !m.spec_is_fd(),
            m.spec_fd() == 0,
    {
        MaybeFd { is_fd: false, fd: 0 }
    }

    /// The number, left in place.
    pub fn fd(&self) -> (fd: u32)
        ensures
            fd == self.spec_fd(),
    {
        self.fd
    }

    /// The descriptor that dropping this value has to close: the number when
    /// it is an owned descriptor, nothing otherwise.
    pub fn fd_to_close(&self) -> (c: Option<u32>)
        ensures
            c == (if self.spec_is_fd() {
                Some(self.spec_fd())
            } else {
                None
            }),
    {
        if self.is_fd {
            Some(self.fd)
        } else {
            None
        }
    }
}

/// The result of a syscall with its number wrapped, marked as a descriptor
/// when `is_fd`.
pub open spec fn wrap_result(fdr: Result<u32, std::io::Error>, is_fd: bool) -> Result<
    MaybeFd,
    std::io::Error,
> {
    match fdr {
        Ok(fd) => Ok(MaybeFd::spec_new(is_fd, fd)),
        Err(e) => Err(e),
    }
}

/// The descriptor that dropping a wrapped result has to close.
pub open spec fn result_fd_to_close(r: Result<MaybeFd, std::io::Error>) -> Option<u32> {
    match r {
        Ok(m) => if m.spec_is_fd() {
            Some(m.spec_fd())
        } else {
            None
        },
        Err(_) => None,
    }
}

/// What a completed operation yields: the syscall's result and the
/// completion flags.
#[derive(Debug)]
pub struct CompletionMeta {
    pub result: Result<MaybeFd, std::io::Error>,
    pub flags: u32,
}

/// A completed operation: the state it was submitted with, handed back,
/// and its result.
#[derive(Debug)]
pub struct Completion<T> {
    pub data: T,
    pub meta: CompletionMeta,
}

} // verus!
