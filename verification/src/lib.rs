//! The two client-facing endpoints of a pseudo-terminal device: the slave
//! data endpoint, which streams bytes through the PTY's direction-tagged
//! queues, and the window-size endpoint, which reads and overwrites the
//! PTY's fixed-size dimensions record in place.
//!
//! All stream state lives in the shared [`pty::Pty`] object, whose lifetime
//! belongs to the master side; endpoint handles carry only their open flags
//! and receive the shared object per call as `Option<Pty>`, `None` standing
//! for a PTY that has already been destroyed. Every operation's exact
//! behavior — blocking and non-blocking read semantics, the tag-byte frame
//! format, readiness signalling, and the per-operation fallback once the
//! PTY is gone — is stated in its contract and verified.

pub mod error;
pub mod flags;
pub mod pty;
pub mod slave;
pub mod winsize;
