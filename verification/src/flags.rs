use vstd::prelude::*;

verus! {

/// Flag-control command: report the handle's current open flags.
pub const F_GETFL: usize = 3;

/// Flag-control command: replace the handle's non-access-mode flag bits.
pub const F_SETFL: usize = 4;

/// Access mode: open for reading only.
pub const O_RDONLY: usize = 0x0001_0000;

/// Access mode: open for writing only.
pub const O_WRONLY: usize = 0x0002_0000;

/// Access mode: open for reading and writing.
pub const O_RDWR: usize = 0x0003_0000;

/// Mask of the access-mode sub-bits of an open-flags word.
///
/// These bits are preserved verbatim across a `F_SETFL` flag-control call.
pub const O_ACCMODE: usize = 0x0003_0000;

/// The non-blocking bit: an empty data-endpoint read returns a zero count
/// instead of failing when it is set.
pub const O_NONBLOCK: usize = 0x0004_0000;

/// The open-flags word a handle carries after `F_SETFL` with argument `arg`:
/// the access-mode sub-bits of the old flags, with every other bit taken
/// from `arg`.
pub open spec fn spec_set_flags(flags: usize, arg: usize) -> usize {
    (flags & O_ACCMODE) | (arg & !O_ACCMODE)
}

/// Whether an open-flags word has the non-blocking bit set.
pub open spec fn spec_nonblocking(flags: usize) -> bool {
    flags & O_NONBLOCK == O_NONBLOCK
}

/// Flag round trip: after flag-control `F_SETFL` with argument `arg`, a
/// `F_GETFL` on the same handle reports the old access-mode bits combined
/// with the non-access-mode bits of `arg`.
pub proof fn lemma_set_then_get_flags(flags: usize, arg: usize)
    ensures
        spec_set_flags(flags, arg) == (flags & O_ACCMODE) | (arg & !O_ACCMODE),
{
}

} // verus!
