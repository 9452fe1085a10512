//! Splits a byte stream that arrives in arbitrary chunks into lines.
//!
//! A line is terminated by `b'\n'`. Bytes after the last terminator are kept
//! until more bytes arrive, so the lines produced never depend on where the
//! transport cut the stream.

use vstd::prelude::*;

verus! {

/// The line terminator.
pub const NEWLINE: u8 = 10;

/// Framing state as a spec value: the complete lines found so far and the
/// bytes of the line still in progress.
pub open spec fn frame_step(st: (Seq<Seq<u8>>, Seq<u8>), b: u8) -> (Seq<Seq<u8>>, Seq<u8>) {
    if b == NEWLINE {
        (st.0.push(st.1), Seq::empty())
    } else {
        (st.0, st.1.push(b))
    }
}

/// Feeds the bytes `bs`, in order, to the framing state `st`.
pub open spec fn frame_from(st: (Seq<Seq<u8>>, Seq<u8>), bs: Seq<u8>) -> (Seq<Seq<u8>>, Seq<u8>)
    decreases bs.len(),
{
    if bs.len() == 0 {
        st
    } else {
        frame_step(frame_from(st, bs.drop_last()), bs.last())
    }
}

/// Feeding `a` and then `b` is feeding `a + b`.
pub proof fn lemma_frame_from_append(st: (Seq<Seq<u8>>, Seq<u8>), a: Seq<u8>, b: Seq<u8>)
    ensures
        frame_from(st, a + b) == frame_from(frame_from(st, a), b),
    decreases b.len(),
{
    if b.len() == 0 {
        assert(a + b =~= a);
    } else {
        lemma_frame_from_append(st, a, b.drop_last());
        assert((a + b).drop_last() =~= a + b.drop_last());
        assert((a + b).last() == b.last());
    }
}

/// The lines already found are kept in front of the ones that follow.
pub proof fn lemma_frame_from_lines(ls: Seq<Seq<u8>>, p: Seq<u8>, bs: Seq<u8>)
    ensures
        frame_from((ls, p), bs).0 == ls + frame_from((Seq::empty(), p), bs).0,
        frame_from((ls, p), bs).1 == frame_from((Seq::empty(), p), bs).1,
    decreases bs.len(),
{
    if bs.len() > 0 {
        lemma_frame_from_lines(ls, p, bs.drop_last());
        let e = frame_from((Seq::<Seq<u8>>::empty(), p), bs.drop_last());
        assert((ls + e.0).push(e.1) =~= ls + e.0.push(e.1));
    } else {
        assert(ls + Seq::<Seq<u8>>::empty() =~= ls);
    }
}

/// A line buffer that reassembles lines across chunk boundaries.
pub struct LineBuffer {
    pending: Vec<u8>,
}

impl LineBuffer {
    /// The bytes of the line in progress.
    pub closed spec fn pending(&self) -> Seq<u8> {
        self.pending@
    }

    pub closed spec fn wf(&self) -> bool {
        !self.pending@.contains(NEWLINE)
    }

    pub fn new() -> (r: LineBuffer)
        ensures
            r.wf(),
            r.pending() == Seq::<u8>::empty(),
    {
        LineBuffer { pending: Vec::new() }
    }

    /// Appends `chunk` to the stream and returns the lines that it completes,
    /// without their terminators.
    pub fn push_chunk(&mut self, chunk: &[u8]) -> (r: Vec<Vec<u8>>)
        requires
            old(self).wf(),
        ensures
            final(self).wf(),
            r@.map_values(|l: Vec<u8>| l@) == frame_from((Seq::empty(), old(self).pending()), chunk@).0,
            final(self).pending() == frame_from((Seq::empty(), old(self).pending()), chunk@).1,
    {
        let ghost p0 = self.pending@;
        let mut out: Vec<Vec<u8>> = Vec::new();
        let mut i: usize = 0;
        while i < chunk.len()
            invariant
                i <= chunk@.len(),
                !self.pending@.contains(NEWLINE),
                (out@.map_values(|l: Vec<u8>| l@), self.pending@) == frame_from(
                    (Seq::empty(), p0),
                    chunk@.subrange(0, i as int),
                ),
            decreases chunk@.len() - i,
        {
            let b = chunk[i];
            proof {
                let s = chunk@.subrange(0, i as int + 1);
                assert(s.drop_last() =~= chunk@.subrange(0, i as int));
                assert(s.last() == b);
            }
            if b == NEWLINE {
                let ghost before = out@;
                let mut line: Vec<u8> = Vec::new();
                std::mem::swap(&mut line, &mut self.pending);
                out.push(line);
                assert(out@.map_values(|l: Vec<u8>| l@) =~= before.map_values(|l: Vec<u8>| l@).push(
                    line@,
                ));
                assert(!self.pending@.contains(NEWLINE));
            } else {
                let ghost before = self.pending@;
                self.pending.push(b);
                assert(!self.pending@.contains(NEWLINE)) by {
                    if self.pending@.contains(NEWLINE) {
                        let k = choose|k: int|
                            0 <= k < self.pending@.len() && self.pending@[k] == NEWLINE;
                        assert(k < before.len());
                        assert(before[k] == NEWLINE);
                    }
                }
            }
            i = i + 1;
        }
        assert(chunk@.subrange(0, i as int) =~= chunk@);
        out
    }

    /// Ends the stream: the line in progress, if it holds any byte, is the
    /// last line.
    pub fn finish(&mut self) -> (r: Option<Vec<u8>>)
        requires
            old(self).wf(),
        ensures
            final(self).wf(),
            final(self).pending() == Seq::<u8>::empty(),
            old(self).pending().len() == 0 ==> r is None,
            old(self).pending().len() > 0 ==> r is Some && r->0@ == old(self).pending(),
    {
        if self.pending.len() == 0 {
            None
        } else {
            let mut line: Vec<u8> = Vec::new();
            std::mem::swap(&mut line, &mut self.pending);
            Some(line)
        }
    }
}

/// The framing state after feeding `chunks` one after another to a buffer
/// whose line in progress is `p`: every line delivered so far, in order, and
/// the new line in progress.
pub open spec fn feed_chunks(p: Seq<u8>, chunks: Seq<Seq<u8>>) -> (Seq<Seq<u8>>, Seq<u8>)
    decreases chunks.len(),
{
    if chunks.len() == 0 {
        (Seq::empty(), p)
    } else {
        let prev = feed_chunks(p, chunks.drop_last());
        let next = frame_from((Seq::empty(), prev.1), chunks.last());
        (prev.0 + next.0, next.1)
    }
}

/// Where the transport cuts the stream does not matter: feeding the chunks
/// one by one delivers the same lines, and leaves the same line in progress,
/// as feeding all of their bytes as one chunk.
pub proof fn lemma_chunking_invariant(p: Seq<u8>, chunks: Seq<Seq<u8>>)
    ensures
        feed_chunks(p, chunks) == frame_from((Seq::empty(), p), chunks.flatten()),
    decreases chunks.len(),
{
    if chunks.len() == 0 {
        assert(chunks.flatten() =~= Seq::<u8>::empty());
    } else {
        let init = chunks.drop_last();
        lemma_chunking_invariant(p, init);
        init.lemma_flatten_push(chunks.last());
        assert(init.push(chunks.last()) =~= chunks);
        let prev = feed_chunks(p, init);
        lemma_frame_from_append((Seq::empty(), p), init.flatten(), chunks.last());
        lemma_frame_from_lines(prev.0, prev.1, chunks.last());
    }
}

} // verus!
