# monoio_driver

The I/O driver of the monoio runtime: the readiness-based driver (mio),
the io_uring driver and the IOCP event machinery, with their bookkeeping
verified in Verus.

## Layout

- `src/` is the verified library. Its functions carry `requires` /
  `ensures` contracts that Verus proves. The few calls into std and
  rustc-hash go through small trusted functions whose contracts restate
  what the documentation of the called function says; the values that only
  those functions know (an I/O error's OS code and kind, a duration's
  seconds and nanoseconds) are named by uninterpreted spec functions.
  - `ready`: readiness sets, directions and interests.
  - `scheduled_io`, `legacy`: the readiness slots of registered resources,
    the dispatch of poller events to them, and the operations that wait for
    readiness before they make their syscall.
  - `lifecycle`, `uring`, `maybe_fd`: the lifecycle of operations in flight
    on a completion-based backend, what a completion entry means, and the
    descriptors that a cancelled operation leaves to be closed.
  - `iocp`, `sock_state`: the AFD flags and the per-socket poll state
    machine of the IOCP poller.
  - `fd_state`: how a shared descriptor is registered, converted between
    completion and readiness polling, and closed.
  - `sockaddr`: socket addresses laid out as the kernel takes them.
  - `wide`: UTF-16 strings for the Windows API.
  - `slab`, `thread`, `oppool`, `timeout`, `op`, `task`, `driver`: the
    slab that hands out tokens, the per-thread registry, the accept
    buffer pool, timeouts in milliseconds, operation cancellers, task
    wakers, and the driver traits.
- `tests/` runs the library on concrete values.
- `app/` is the runtime plumbing around the library: the mio poller and
  the io_uring instance, cross-thread wakers, the thread registry's statics,
  the operations' syscalls, the shared descriptors, and the copying of the
  library's plain values into libc structures with the platform's
  constants (address families, `EINPROGRESS`).
