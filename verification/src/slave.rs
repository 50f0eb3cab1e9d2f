use vstd::prelude::*;
use crate::error::Error;
use crate::flags::{F_GETFL, F_SETFL, spec_nonblocking, spec_set_flags, O_ACCMODE, O_NONBLOCK};
use crate::pty::{copied, copy_len, data_frame, lemma_outbound_push, sync_frame, Pty};

verus! {

/// The slave data endpoint: byte-stream access to the shared PTY's two
/// direction-tagged queues.
///
/// The handle carries only its open flags; all stream state lives in the
/// shared [`Pty`], which each operation receives as `Option<Pty>` (`None`
/// once the master side has destroyed it).
#[derive(Clone, Copy, PartialEq, Eq, Structural, Debug)]
pub struct PtySlave {
    flags: usize,
}

impl PtySlave {
    /// The handle's open flags.
    pub closed spec fn spec_flags(&self) -> usize {
        self.flags
    }

    /// A new data-endpoint handle with the given open flags.
    pub fn new(flags: usize) -> (slave: PtySlave)
        ensures
            slave.spec_flags() == flags,
    {
        PtySlave { flags }
    }

    /// The handle's open flags.
    pub fn flags(&self) -> (f: usize)
        ensures
            f == self.spec_flags(),
    {
        self.flags
    }

    /// An independent duplicate of this handle, carrying a copy of its flags.
    pub fn boxed_clone(&self) -> (dup: Box<PtySlave>)
        ensures
            *dup == *self,
    {
        Box::new(*self)
    }

    /// Copies the PTY's display name into `buf`; fails with
    /// [`Error::BrokenPipe`] once the PTY is gone.
    pub fn path(&self, pty: &Option<Pty>, buf: &mut Vec<u8>) -> (r: Result<usize, Error>)
        ensures
            pty is None ==> r == Err::<usize, Error>(Error::BrokenPipe) && *final(buf) == *old(buf),
            pty is Some ==> {
                let name = pty->Some_0@.path;
                &&& final(buf)@ == copied(old(buf)@, name)
                &&& r == Ok::<usize, Error>(copy_len(old(buf)@, name) as usize)
            },
    {
        match pty {
            Some(p) => Ok(p.path(buf)),
            None => Err(Error::BrokenPipe),
        }
    }

    /// Pops bytes from the front of the live PTY's inbound queue into `buf`
    /// until the buffer is full or the queue is empty.
    ///
    /// Returns the positive count copied; on an empty queue, returns `0`
    /// when the non-blocking bit is set and fails with
    /// [`Error::WouldBlock`] otherwise.
    pub fn read_live(&self, pty: &mut Pty, buf: &mut Vec<u8>) -> (r: Result<usize, Error>)
        ensures
            ({
                let q = old(pty)@.inbound;
                let n = copy_len(old(buf)@, q);
                &&& final(pty)@.inbound == q.skip(n)
                &&& final(pty)@.outbound == old(pty)@.outbound
                &&& final(pty)@.winsize == old(pty)@.winsize
                &&& final(pty)@.path == old(pty)@.path
                &&& final(buf)@ == copied(old(buf)@, q)
                &&& r == (if n > 0 {
                    Ok::<usize, Error>(n as usize)
                } else if spec_nonblocking(self.spec_flags()) {
                    Ok::<usize, Error>(0)
                } else {
                    Err::<usize, Error>(Error::WouldBlock)
                })
            }),
    {
        let ghost q = pty.mosi@;
        let mut i: usize = 0;
        while i < buf.len() && pty.mosi.len() > 0
            invariant
                i <= buf@.len(),
                i <= q.len(),
                buf@.len() == old(buf)@.len(),
                pty.mosi@ == q.skip(i as int),
                pty.miso == old(pty).miso,
                pty.winsize == old(pty).winsize,
                pty.path == old(pty).path,
                forall|j: int| 0 <= j < i ==> buf@[j] == q[j],
                forall|j: int| i <= j < buf@.len() ==> buf@[j] == old(buf)@[j],
            decreases buf@.len() - i,
        {
            let b = pty.mosi.pop_front().unwrap();
            buf.set(i, b);
            i += 1;
        }
        proof {
            assert(buf@ =~= copied(old(buf)@, q));
        }
        if i > 0 || self.flags & O_NONBLOCK == O_NONBLOCK {
            Ok(i)
        } else {
            Err(Error::WouldBlock)
        }
    }

    /// `read` against a PTY that may already be gone: delegates to
    /// [`PtySlave::read_live`], and reports a count of `0` — end of stream,
    /// not an error — once the PTY is destroyed.
    pub fn read(&self, pty: &mut Option<Pty>, buf: &mut Vec<u8>) -> (r: Result<usize, Error>)
        ensures
            (*old(pty)) is None ==> {
                &&& (*final(pty)) is None
                &&& *final(buf) == *old(buf)
                &&& r == Ok::<usize, Error>(0)
            },
            (*old(pty)) is Some ==> {
                let q = (*old(pty))->Some_0@.inbound;
                let n = copy_len(old(buf)@, q);
                &&& (*final(pty)) is Some
                &&& (*final(pty))->Some_0@.inbound == q.skip(n)
                &&& (*final(pty))->Some_0@.outbound == (*old(pty))->Some_0@.outbound
                &&& (*final(pty))->Some_0@.winsize == (*old(pty))->Some_0@.winsize
                &&& (*final(pty))->Some_0@.path == (*old(pty))->Some_0@.path
                &&& final(buf)@ == copied(old(buf)@, q)
                &&& r == (if n > 0 {
                    Ok::<usize, Error>(n as usize)
                } else if spec_nonblocking(self.spec_flags()) {
                    Ok::<usize, Error>(0)
                } else {
                    Err::<usize, Error>(Error::WouldBlock)
                })
            },
    {
        match pty {
            Some(p) => self.read_live(p, buf),
            None => Ok(0),
        }
    }

    /// Appends the data frame `[0, buf...]` to the live PTY's outbound queue
    /// and returns the full length of `buf`: writes are never partial and
    /// never block.
    pub fn write_live(&self, pty: &mut Pty, buf: &Vec<u8>) -> (r: Result<usize, Error>)
        ensures
            final(pty)@.outbound == old(pty)@.outbound.push(data_frame(buf@)),
            final(pty)@.inbound == old(pty)@.inbound,
            final(pty)@.winsize == old(pty)@.winsize,
            final(pty)@.path == old(pty)@.path,
            r == Ok::<usize, Error>(buf@.len() as usize),
    {
        let mut frame: Vec<u8> = Vec::new();
        frame.push(0);
        let mut i: usize = 0;
        while i < buf.len()
            invariant
                i <= buf@.len(),
                frame@ == data_frame(buf@.take(i as int)),
            decreases buf@.len() - i,
        {
            proof {
                assert(data_frame(buf@.take(i as int)).push(buf@[i as int]) =~= data_frame(
                    buf@.take(i + 1),
                ));
            }
            frame.push(buf[i]);
            i += 1;
        }
        proof {
            assert(buf@.take(buf@.len() as int) =~= buf@);
        }
        let ghost miso0 = pty.miso;
        let ghost frame_done = frame;
        pty.miso.push_back(frame);
        proof {
            lemma_outbound_push(miso0, pty.miso, frame_done);
        }
        Ok(buf.len())
    }

    /// `write` against a PTY that may already be gone: delegates to
    /// [`PtySlave::write_live`], and fails with [`Error::BrokenPipe`] once
    /// the PTY is destroyed.
    pub fn write(&self, pty: &mut Option<Pty>, buf: &Vec<u8>) -> (r: Result<usize, Error>)
        ensures
            (*old(pty)) is None ==> (*final(pty)) is None && r == Err::<usize, Error>(Error::BrokenPipe),
            (*old(pty)) is Some ==> {
                &&& (*final(pty)) is Some
                &&& (*final(pty))->Some_0@.outbound == (*old(pty))->Some_0@.outbound.push(
                    data_frame(buf@),
                )
                &&& (*final(pty))->Some_0@.inbound == (*old(pty))->Some_0@.inbound
                &&& (*final(pty))->Some_0@.winsize == (*old(pty))->Some_0@.winsize
                &&& (*final(pty))->Some_0@.path == (*old(pty))->Some_0@.path
                &&& r == Ok::<usize, Error>(buf@.len() as usize)
            },
    {
        match pty {
            Some(p) => self.write_live(p, buf),
            None => Err(Error::BrokenPipe),
        }
    }

    /// Appends the zero-payload control frame `[1]` to the live PTY's
    /// outbound queue and returns `0`: the slave's discrete signal to the
    /// master.
    pub fn sync_live(&self, pty: &mut Pty) -> (r: Result<usize, Error>)
        ensures
            final(pty)@.outbound == old(pty)@.outbound.push(sync_frame()),
            final(pty)@.inbound == old(pty)@.inbound,
            final(pty)@.winsize == old(pty)@.winsize,
            final(pty)@.path == old(pty)@.path,
            r == Ok::<usize, Error>(0),
    {
        let mut frame: Vec<u8> = Vec::new();
        frame.push(1);
        proof {
            assert(frame@ =~= sync_frame());
        }
        let ghost miso0 = pty.miso;
        let ghost frame_done = frame;
        pty.miso.push_back(frame);
        proof {
            lemma_outbound_push(miso0, pty.miso, frame_done);
        }
        Ok(0)
    }

    /// `sync` against a PTY that may already be gone: delegates to
    /// [`PtySlave::sync_live`], and fails with [`Error::BrokenPipe`] once
    /// the PTY is destroyed.
    pub fn sync(&self, pty: &mut Option<Pty>) -> (r: Result<usize, Error>)
        ensures
            (*old(pty)) is None ==> (*final(pty)) is None && r == Err::<usize, Error>(Error::BrokenPipe),
            (*old(pty)) is Some ==> {
                &&& (*final(pty)) is Some
                &&& (*final(pty))->Some_0@.outbound == (*old(pty))->Some_0@.outbound.push(sync_frame())
                &&& (*final(pty))->Some_0@.inbound == (*old(pty))->Some_0@.inbound
                &&& (*final(pty))->Some_0@.winsize == (*old(pty))->Some_0@.winsize
                &&& (*final(pty))->Some_0@.path == (*old(pty))->Some_0@.path
                &&& r == Ok::<usize, Error>(0)
            },
    {
        match pty {
            Some(p) => self.sync_live(p),
            None => Err(Error::BrokenPipe),
        }
    }

    /// Flag control: `F_GETFL` reports the current flags; `F_SETFL` keeps the
    /// access-mode sub-bits and replaces every other bit with those of `arg`;
    /// any other command fails with [`Error::InvalidArgument`].
    pub fn fcntl(&mut self, cmd: usize, arg: usize) -> (r: Result<usize, Error>)
        ensures
            cmd == F_GETFL ==> *final(self) == *old(self) && r == Ok::<usize, Error>(
                old(self).spec_flags(),
            ),
            cmd == F_SETFL ==> final(self).spec_flags() == spec_set_flags(
                old(self).spec_flags(),
                arg,
            ) && r == Ok::<usize, Error>(0),
            cmd != F_GETFL && cmd != F_SETFL ==> *final(self) == *old(self) && r == Err::<
                usize,
                Error,
            >(Error::InvalidArgument),
    {
        if cmd == F_GETFL {
            Ok(self.flags)
        } else if cmd == F_SETFL {
            self.flags = (self.flags & O_ACCMODE) | (arg & !O_ACCMODE);
            Ok(0)
        } else {
            Err(Error::InvalidArgument)
        }
    }

    /// Readiness registration always succeeds: the data endpoint is pollable.
    pub fn fevent(&self) -> (r: Result<(), Error>)
        ensures
            r == Ok::<(), Error>(()),
    {
        Ok(())
    }

    /// Readiness poll against a live PTY: the inbound queue's length when it
    /// is non-empty, no event (`None`) when it is empty.
    pub fn fevent_count_live(&self, pty: &Pty) -> (r: Option<usize>)
        ensures
            pty@.inbound.len() > 0 ==> r == Some(pty@.inbound.len() as usize),
            pty@.inbound.len() == 0 ==> r is None,
    {
        if pty.mosi.len() > 0 {
            Some(pty.mosi.len())
        } else {
            None
        }
    }

    /// Readiness poll: the inbound queue's length when it is non-empty, no
    /// event (`None`) when it is empty, and an immediate event with count `0`
    /// once the PTY is destroyed — closure is a readiness event, distinct
    /// from "nothing ready".
    pub fn fevent_count(&self, pty: &Option<Pty>) -> (r: Option<usize>)
        ensures
            pty is None ==> r == Some(0usize),
            pty is Some && pty->Some_0@.inbound.len() > 0 ==> r == Some(
                pty->Some_0@.inbound.len() as usize,
            ),
            pty is Some && pty->Some_0@.inbound.len() == 0 ==> r is None,
    {
        match pty {
            Some(p) => self.fevent_count_live(p),
            None => Some(0),
        }
    }
}

} // verus!
