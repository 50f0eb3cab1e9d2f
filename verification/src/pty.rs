use vstd::prelude::*;
use std::collections::VecDeque;

verus! {

/// Mathematical model of the shared PTY object: each queue and record as a
/// sequence, with every frame of the outbound queue spelled out byte by byte.
pub struct PtyModel {
    /// Bytes waiting for the data endpoint's `read`, front first.
    pub inbound: Seq<u8>,
    /// Frames produced by the data endpoint's `write` and `sync`, front first.
    pub outbound: Seq<Seq<u8>>,
    /// The current window-size record.
    pub winsize: Seq<u8>,
    /// The display name.
    pub path: Seq<u8>,
}

/// The shared PTY object both endpoints operate on.
///
/// All state lives here; the endpoint handles carry only their open flags.
/// The master side and the dispatch layer own the object's lifetime, so every
/// endpoint operation receives it as `Option<Pty>`: `None` stands for a PTY
/// that has already been destroyed.
pub struct Pty {
    /// The queue the data endpoint's `read` drains byte by byte.
    pub mosi: VecDeque<u8>,
    /// The frame queue the data endpoint's `write` and `sync` append to.
    /// Each frame is a tag byte followed by its payload.
    pub miso: VecDeque<Vec<u8>>,
    /// The fixed-size window-size record, mutated in place and never resized.
    pub winsize: Vec<u8>,
    /// The display name, retrievable through every endpoint's `path`.
    pub path: Vec<u8>,
}

impl View for Pty {
    type V = PtyModel;

    open spec fn view(&self) -> PtyModel {
        PtyModel {
            inbound: self.mosi@,
            outbound: self.miso.deep_view(),
            winsize: self.winsize@,
            path: self.path@,
        }
    }
}

/// The frame `write(payload)` appends: tag byte `0`, then the payload.
pub open spec fn data_frame(payload: Seq<u8>) -> Seq<u8> {
    seq![0u8] + payload
}

/// The frame `sync()` appends: the single tag byte `1`, no payload.
pub open spec fn sync_frame() -> Seq<u8> {
    seq![1u8]
}

/// How many bytes a bounded copy moves: the length of the shorter of
/// destination and source.
pub open spec fn copy_len(dst: Seq<u8>, src: Seq<u8>) -> int {
    if dst.len() <= src.len() {
        dst.len() as int
    } else {
        src.len() as int
    }
}

/// The destination after a bounded copy: the copied prefix of `src`, then the
/// untouched tail of the old destination.
pub open spec fn copied(dst: Seq<u8>, src: Seq<u8>) -> Seq<u8> {
    src.take(copy_len(dst, src)) + dst.skip(copy_len(dst, src))
}

/// A data frame starts with tag byte `0` and carries the payload unchanged;
/// a sync frame is exactly the tag byte `1`.
pub proof fn lemma_frame_shape(payload: Seq<u8>)
    ensures
        data_frame(payload).len() == payload.len() + 1,
        data_frame(payload)[0] == 0u8,
        data_frame(payload).skip(1) == payload,
        sync_frame().len() == 1,
        sync_frame()[0] == 1u8,
{
    assert(data_frame(payload).skip(1) =~= payload);
}

/// Copies bytes from the front of `src` into the front of `dst` until either
/// is exhausted; returns the number of bytes copied.
pub fn copy_prefix(dst: &mut Vec<u8>, src: &Vec<u8>) -> (n: usize)
    ensures
        n == copy_len(old(dst)@, src@),
        final(dst)@ == copied(old(dst)@, src@),
{
    let mut i: usize = 0;
    while i < dst.len() && i < src.len()
        invariant
            i <= dst@.len(),
            i <= src@.len(),
            dst@.len() == old(dst)@.len(),
            forall|j: int| 0 <= j < i ==> dst@[j] == src@[j],
            forall|j: int| i <= j < dst@.len() ==> dst@[j] == old(dst)@[j],
        decreases dst@.len() - i,
    {
        let b = src[i];
        dst.set(i, b);
        i += 1;
    }
    proof {
        assert(dst@ =~= copied(old(dst)@, src@));
    }
    i
}

impl Pty {
    /// A fresh PTY: both queues empty, the given window-size record and
    /// display name.
    pub fn new(path: Vec<u8>, winsize: Vec<u8>) -> (pty: Pty)
        ensures
            pty@.inbound == Seq::<u8>::empty(),
            pty@.outbound == Seq::<Seq<u8>>::empty(),
            pty@.winsize == winsize@,
            pty@.path == path@,
    {
        let pty = Pty { mosi: VecDeque::new(), miso: VecDeque::new(), winsize, path };
        proof {
            assert(pty@.outbound =~= Seq::<Seq<u8>>::empty());
        }
        pty
    }

    /// Copies the display name into the front of `buf`, as much as fits,
    /// and returns the number of bytes copied.
    pub fn path(&self, buf: &mut Vec<u8>) -> (n: usize)
        ensures
            n == copy_len(old(buf)@, self@.path),
            final(buf)@ == copied(old(buf)@, self@.path),
    {
        copy_prefix(buf, &self.path)
    }
}

/// Pushing a frame onto the back of the outbound queue appends exactly that
/// frame's bytes to the queue's model.
pub proof fn lemma_outbound_push(d0: VecDeque<Vec<u8>>, d1: VecDeque<Vec<u8>>, frame: Vec<u8>)
    requires
        d1@ == d0@.push(frame),
    ensures
        d1.deep_view() == d0.deep_view().push(frame@),
{
    assert(frame.deep_view() =~= frame@);
    assert forall|i: int| 0 <= i < d1@.len() implies d1.deep_view()[i] == d0.deep_view().push(
        frame@,
    )[i] by {
        if i < d0@.len() {
            assert(d1@[i] == d0@[i]);
        } else {
            assert(d1@[i] == frame);
        }
    }
    assert(d1.deep_view() =~= d0.deep_view().push(frame@));
}

} // verus!
