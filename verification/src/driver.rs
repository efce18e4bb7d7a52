//! The interface every I/O driver offers to the runtime.
use vstd::prelude::*;

verus! {

/// Unparks a runtime of another thread.
pub trait Unpark: Sync + Send + 'static {
    /// Unblocks a thread that is blocked by the associated `Park` handle.
    ///
    /// Calling `unpark` atomically makes available the unpark token, if it
    /// is not already available.
    fn unpark(&self) -> Result<(), std::io::Error>;
}

impl Unpark for Box<dyn Unpark> {
    fn unpark(&self) -> Result<(), std::io::Error> {
        (**self).unpark()
    }
}

impl Unpark for std::sync::Arc<dyn Unpark> {
    fn unpark(&self) -> Result<(), std::io::Error> {
        (**self).unpark()
    }
}

/// Core driver trait.
pub trait Driver {
    /// Runs `f` with the driver installed as the current one.
    fn with<R, F: FnOnce() -> R>(&self, f: F) -> R;

    /// Submits ops to the kernel and processes returned events.
    fn submit(&self) -> Result<(), std::io::Error>;

    /// Waits infinitely and processes returned events.
    fn park(&self) -> Result<(), std::io::Error>;

    /// Waits with timeout and processes returned events.
    fn park_timeout(&self, duration: std::time::Duration) -> Result<(), std::io::Error>;

    /// The handle to wake the driver's thread from another.
    type Unpark: Unpark;

    /// Gets the handle to wake the driver's thread from another.
    fn unpark(&self) -> Self::Unpark;
}

} // verus!
