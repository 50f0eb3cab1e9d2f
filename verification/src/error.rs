use vstd::prelude::*;

verus! {

/// The failures a PTY endpoint operation can report.
///
/// Every failure is local to the handle that reported it: none is fatal, and
/// the dispatch layer decides whether to retry, report, or treat the result
/// as end-of-stream.
#[derive(Clone, Copy, PartialEq, Eq, Structural, Debug)]
pub enum Error {
    /// The operation needs the shared PTY object and it no longer exists.
    BrokenPipe,
    /// A read found no data and the handle is not in non-blocking mode.
    WouldBlock,
    /// A flag-control command that the endpoint does not recognize.
    InvalidArgument,
    /// A readiness registration on an endpoint that is not pollable.
    BadDescriptor,
}

} // verus!
