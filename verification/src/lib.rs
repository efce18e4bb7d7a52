//! Verified core of the monoio I/O driver: readiness sets, the scheduled-io
//! slots of the poll-based driver, the lifecycle of in-flight completion
//! operations, and the AFD poll state machine of the IOCP backend.
pub mod ready;
pub mod iocp;
pub mod sock_state;
pub mod maybe_fd;
pub mod slab;
pub mod task;
pub mod scheduled_io;
pub mod lifecycle;
pub mod legacy;
pub mod uring;
pub mod timeout;
pub mod thread;
pub mod driver;
pub mod fd_state;
pub mod op;
pub mod oppool;
pub mod wide;
pub mod sockaddr;
