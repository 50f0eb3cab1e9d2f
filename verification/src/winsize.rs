use vstd::prelude::*;
use crate::error::Error;
use crate::flags::{F_GETFL, F_SETFL, spec_set_flags, O_ACCMODE};
use crate::pty::{copied, copy_len, copy_prefix, Pty};

verus! {

/// The window-size endpoint: fixed-size structured access to the shared
/// PTY's current dimensions record.
///
/// There is no history and no queue: writers overwrite the record in place,
/// last write wins, and readers always observe the current value. The
/// endpoint is not pollable.
#[derive(Clone, Copy, PartialEq, Eq, Structural, Debug)]
pub struct PtyWinsize {
    flags: usize,
}

impl PtyWinsize {
    /// The handle's open flags.
    pub closed spec fn spec_flags(&self) -> usize {
        self.flags
    }

    /// A new window-size handle with the given open flags.
    pub fn new(flags: usize) -> (winsize: PtyWinsize)
        ensures
            winsize.spec_flags() == flags,
    {
        PtyWinsize { flags }
    }

    /// The handle's open flags.
    pub fn flags(&self) -> (f: usize)
        ensures
            f == self.spec_flags(),
    {
        self.flags
    }

    /// An independent duplicate of this handle, carrying a copy of its flags.
    pub fn boxed_clone(&self) -> (dup: Box<PtyWinsize>)
        ensures
            *dup == *self,
    {
        Box::new(*self)
    }

    /// Copies the PTY's display name into `buf`; fails with
    /// [`Error::BrokenPipe`] once the PTY is gone.
    pub fn path(&self, pty: &Option<Pty>, buf: &mut Vec<u8>) -> (r: Result<usize, Error>)
        ensures
            pty is None ==> r == Err::<usize, Error>(Error::BrokenPipe) && *final(buf) == *old(buf),
            pty is Some ==> {
                let name = pty->Some_0@.path;
                &&& final(buf)@ == copied(old(buf)@, name)
                &&& r == Ok::<usize, Error>(copy_len(old(buf)@, name) as usize)
            },
    {
        match pty {
            Some(p) => Ok(p.path(buf)),
            None => Err(Error::BrokenPipe),
        }
    }

    /// Copies the live PTY's window-size record into `buf`, as much as fits,
    /// and reports that count as an immediate result: window-size reads never
    /// queue and never block.
    pub fn read_live(&self, pty: &Pty, buf: &mut Vec<u8>) -> (r: Result<Option<usize>, Error>)
        ensures
            final(buf)@ == copied(old(buf)@, pty@.winsize),
            r == Ok::<Option<usize>, Error>(Some(copy_len(old(buf)@, pty@.winsize) as usize)),
    {
        Ok(Some(copy_prefix(buf, &pty.winsize)))
    }

    /// `read` against a PTY that may already be gone: delegates to
    /// [`PtyWinsize::read_live`], and a destroyed PTY reads as count `0` —
    /// still an immediate result, never an error.
    pub fn read(&self, pty: &Option<Pty>, buf: &mut Vec<u8>) -> (r: Result<
        Option<usize>,
        Error,
    >)
        ensures
            pty is None ==> r == Ok::<Option<usize>, Error>(Some(0)) && *final(buf) == *old(buf),
            pty is Some ==> {
                let record = pty->Some_0@.winsize;
                &&& final(buf)@ == copied(old(buf)@, record)
                &&& r == Ok::<Option<usize>, Error>(Some(copy_len(old(buf)@, record) as usize))
            },
    {
        match pty {
            Some(p) => self.read_live(p, buf),
            None => Ok(Some(0)),
        }
    }

    /// Overwrites the front of the live PTY's window-size record with `buf`,
    /// as much as the record holds, and reports that count as an immediate
    /// result.
    pub fn write_live(&self, pty: &mut Pty, buf: &Vec<u8>) -> (r: Result<Option<usize>, Error>)
        ensures
            final(pty)@.winsize == copied(old(pty)@.winsize, buf@),
            final(pty)@.inbound == old(pty)@.inbound,
            final(pty)@.outbound == old(pty)@.outbound,
            final(pty)@.path == old(pty)@.path,
            r == Ok::<Option<usize>, Error>(Some(copy_len(old(pty)@.winsize, buf@) as usize)),
    {
        let n = copy_prefix(&mut pty.winsize, buf);
        Ok(Some(n))
    }

    /// `write` against a PTY that may already be gone: delegates to
    /// [`PtyWinsize::write_live`], and fails with [`Error::BrokenPipe`] once
    /// the PTY is destroyed — unlike `read`, a write cannot silently no-op.
    pub fn write(&self, pty: &mut Option<Pty>, buf: &Vec<u8>) -> (r: Result<Option<usize>, Error>)
        ensures
            (*old(pty)) is None ==> (*final(pty)) is None && r == Err::<Option<usize>, Error>(
                Error::BrokenPipe,
            ),
            (*old(pty)) is Some ==> {
                let record = (*old(pty))->Some_0@.winsize;
                &&& (*final(pty)) is Some
                &&& (*final(pty))->Some_0@.winsize == copied(record, buf@)
                &&& (*final(pty))->Some_0@.inbound == (*old(pty))->Some_0@.inbound
                &&& (*final(pty))->Some_0@.outbound == (*old(pty))->Some_0@.outbound
                &&& (*final(pty))->Some_0@.path == (*old(pty))->Some_0@.path
                &&& r == Ok::<Option<usize>, Error>(Some(copy_len(record, buf@) as usize))
            },
    {
        match pty {
            Some(p) => self.write_live(p, buf),
            None => Err(Error::BrokenPipe),
        }
    }

    /// There is no buffered state to flush: `sync` succeeds trivially.
    pub fn sync(&self) -> (r: Result<usize, Error>)
        ensures
            r == Ok::<usize, Error>(0),
    {
        Ok(0)
    }

    /// Flag control: `F_GETFL` reports the current flags; `F_SETFL` keeps the
    /// access-mode sub-bits and replaces every other bit with those of `arg`;
    /// any other command fails with [`Error::InvalidArgument`].
    pub fn fcntl(&mut self, cmd: usize, arg: usize) -> (r: Result<usize, Error>)
        ensures
            cmd == F_GETFL ==> *final(self) == *old(self) && r == Ok::<usize, Error>(
                old(self).spec_flags(),
            ),
            cmd == F_SETFL ==> final(self).spec_flags() == spec_set_flags(
                old(self).spec_flags(),
                arg,
            ) && r == Ok::<usize, Error>(0),
            cmd != F_GETFL && cmd != F_SETFL ==> *final(self) == *old(self) && r == Err::<
                usize,
                Error,
            >(Error::InvalidArgument),
    {
        if cmd == F_GETFL {
            Ok(self.flags)
        } else if cmd == F_SETFL {
            self.flags = (self.flags & O_ACCMODE) | (arg & !O_ACCMODE);
            Ok(0)
        } else {
            Err(Error::InvalidArgument)
        }
    }

    /// Readiness registration always fails with [`Error::BadDescriptor`]:
    /// this endpoint is not selectable, dimension changes are not an event
    /// stream.
    pub fn fevent(&mut self) -> (r: Result<(), Error>)
        ensures
            *final(self) == *old(self),
            r == Err::<(), Error>(Error::BadDescriptor),
    {
        Err(Error::BadDescriptor)
    }

    /// Readiness poll: always no event.
    pub fn fevent_count(&mut self) -> (r: Option<usize>)
        ensures
            *final(self) == *old(self),
            r is None,
    {
        None
    }

    /// Write-readiness poll: never signals.
    pub fn fevent_writable(&mut self) -> (r: bool)
        ensures
            *final(self) == *old(self),
            r == false,
    {
        false
    }
}

/// Window-size round trip: after a `write` whose buffer covers the whole
/// record, a `read` whose buffer has room for the record returns exactly the
/// record's worth of the bytes written.
pub proof fn lemma_winsize_round_trip(record: Seq<u8>, wbuf: Seq<u8>, rbuf: Seq<u8>)
    requires
        wbuf.len() >= record.len(),
        rbuf.len() >= record.len(),
    ensures
        copied(record, wbuf).len() == record.len(),
        copy_len(rbuf, copied(record, wbuf)) == record.len(),
        copied(rbuf, copied(record, wbuf)).take(record.len() as int) == wbuf.take(
            record.len() as int,
        ),
{
    assert(copied(record, wbuf) =~= wbuf.take(record.len() as int));
    assert(copied(rbuf, copied(record, wbuf)).take(record.len() as int) =~= wbuf.take(
        record.len() as int,
    ));
}

} // verus!
