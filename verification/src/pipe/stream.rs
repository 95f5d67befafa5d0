//! What a framed socket sends in one call and what it has received beside the
//! bytes it read: segments of data with their descriptors, and the queue of
//! descriptors that arrived as ancillary data and were not claimed yet.

use vstd::prelude::*;

verus! {

/// Largest number of descriptors that one control message carries.
pub const SCM_MAX_FD: usize = 253;

/// The count byte of a descriptor chunk that is full and followed by another.
pub const MORE_CHUNKS: u8 = 255;

/// The model of a [`Segment`].
pub enum SegmentView {
    Data(Seq<u8>),
    Rights(u8, Seq<i32>),
}

/// What goes out in one call on the socket.
#[derive(Debug)]
pub enum Segment {
    /// Plain bytes.
    Data(Vec<u8>),
    /// One count byte, with the descriptors that accompany it as ancillary
    /// data.
    Rights(u8, Vec<i32>),
}

impl View for Segment {
    type V = SegmentView;

    open spec fn view(&self) -> SegmentView {
        match self {
            Segment::Data(bytes) => SegmentView::Data(bytes@),
            Segment::Rights(count, fds) => SegmentView::Rights(*count, fds@),
        }
    }
}

/// The models of a sequence of segments.
pub open spec fn segment_views(segments: Seq<Segment>) -> Seq<SegmentView> {
    segments.map_values(|s: Segment| s@)
}

/// Number of descriptors that a chunk with the given count byte carries: a
/// full chunk's worth under the sentinel count, and as many as the byte says
/// under any other.
pub open spec fn announced(count: u8) -> nat {
    if count == MORE_CHUNKS {
        SCM_MAX_FD as nat
    } else {
        count as nat
    }
}

/// The chunks that carry `fds`: full chunks marked with the sentinel count as
/// long as more than one chunk's worth is left, then one chunk whose count
/// byte is the number of descriptors in it.
pub open spec fn fd_chunks(fds: Seq<i32>) -> Seq<SegmentView>
    decreases fds.len(),
{
    if fds.len() > SCM_MAX_FD {
        seq![SegmentView::Rights(MORE_CHUNKS, fds.take(SCM_MAX_FD as int))] + fd_chunks(
            fds.skip(SCM_MAX_FD as int),
        )
    } else {
        seq![SegmentView::Rights(fds.len() as u8, fds)]
    }
}

/// The chunks of a batch of descriptors delimit themselves, and none is too
/// large for one control message: each carries as many descriptors as its
/// count byte announces, at most [`SCM_MAX_FD`], and exactly the chunks before
/// the last are marked with the sentinel count.
pub proof fn lemma_chunks_delimited(fds: Seq<i32>)
    ensures
        fd_chunks(fds).len() >= 1,
        forall|i: int|
            0 <= i < fd_chunks(fds).len() ==> {
                &&& #[trigger] fd_chunks(fds)[i] matches SegmentView::Rights(count, part)
                &&& part.len() == announced(count)
                &&& part.len() <= SCM_MAX_FD
                &&& (count == MORE_CHUNKS) == (i + 1 < fd_chunks(fds).len())
            },
    decreases fds.len(),
{
    if fds.len() > SCM_MAX_FD {
        let tail = fds.skip(SCM_MAX_FD as int);
        lemma_chunks_delimited(tail);
        assert forall|i: int| 0 <= i < fd_chunks(fds).len() implies {
            &&& #[trigger] fd_chunks(fds)[i] matches SegmentView::Rights(count, part)
            &&& part.len() == announced(count)
            &&& part.len() <= SCM_MAX_FD
            &&& (count == MORE_CHUNKS) == (i + 1 < fd_chunks(fds).len())
        } by {
            if i > 0 {
                assert(fd_chunks(fds)[i] == fd_chunks(tail)[i - 1]);
            }
        }
    }
}

/// The number of descriptors that a count byte announces.
pub fn announced_by(count: u8) -> (n: usize)
    ensures
        n == announced(count),
{
    if count == MORE_CHUNKS {
        SCM_MAX_FD
    } else {
        count as usize
    }
}

/// A copy of the descriptors at positions `from` up to `to`.
fn copy_fds(fds: &Vec<i32>, from: usize, to: usize) -> (out: Vec<i32>)
    requires
        from <= to <= fds.len(),
    ensures
        out@ == fds@.subrange(from as int, to as int),
{
    let mut out: Vec<i32> = Vec::new();
    let mut i: usize = from;
    while i < to
        invariant
            from <= i <= to <= fds.len(),
            out@ == fds@.subrange(from as int, i as int),
        decreases to - i,
    {
        out.push(fds[i]);
        proof {
            assert(fds@.subrange(from as int, i + 1) =~= fds@.subrange(from as int, i as int).push(
                fds@[i as int],
            ));
        }
        i = i + 1;
    }
    out
}

/// Appends to `out` the chunks that carry `fds`.
pub fn write_fds(out: &mut Vec<Segment>, fds: &Vec<i32>)
    ensures
        segment_views(final(out)@) == segment_views(old(out)@) + fd_chunks(fds@),
{
    let mut start: usize = 0;
    proof {
        assert(fds@.skip(0) =~= fds@);
        assert(segment_views(out@) + Seq::<SegmentView>::empty() =~= segment_views(out@));
    }
    while fds.len() - start > SCM_MAX_FD
        invariant
            start <= fds.len(),
            segment_views(out@) + fd_chunks(fds@.skip(start as int)) == segment_views(old(out)@)
                + fd_chunks(fds@),
        decreases fds.len() - start,
    {
        let chunk = copy_fds(fds, start, start + SCM_MAX_FD);
        let ghost before = out@;
        let ghost rest = fds@.skip(start as int);
        out.push(Segment::Rights(MORE_CHUNKS, chunk));
        proof {
            assert(rest.take(SCM_MAX_FD as int) =~= fds@.subrange(
                start as int,
                start + SCM_MAX_FD,
            ));
            assert(rest.skip(SCM_MAX_FD as int) =~= fds@.skip(start + SCM_MAX_FD));
            assert(segment_views(out@) =~= segment_views(before).push(
                SegmentView::Rights(MORE_CHUNKS, rest.take(SCM_MAX_FD as int)),
            ));
            assert(segment_views(out@) + fd_chunks(rest.skip(SCM_MAX_FD as int)) =~= segment_views(
                before,
            ) + fd_chunks(rest));
        }
        start = start + SCM_MAX_FD;
    }
    let last = copy_fds(fds, start, fds.len());
    let count: u8 = (fds.len() - start) as u8;
    let ghost before = out@;
    let ghost rest = fds@.skip(start as int);
    out.push(Segment::Rights(count, last));
    proof {
        assert(rest =~= fds@.subrange(start as int, fds@.len() as int));
        assert(segment_views(out@) =~= segment_views(before).push(
            SegmentView::Rights(count, rest),
        ));
        assert(segment_views(out@) =~= segment_views(before) + fd_chunks(rest));
    }
}

/// The descriptors that arrived on a socket and were not claimed yet, oldest
/// first.
#[derive(Debug)]
pub struct FdQueue {
    fds: Vec<i32>,
}

impl View for FdQueue {
    type V = Seq<i32>;

    closed spec fn view(&self) -> Seq<i32> {
        self.fds@
    }
}

impl FdQueue {
    /// An empty queue.
    pub fn new() -> (queue: FdQueue)
        ensures
            queue@ == Seq::<i32>::empty(),
    {
        FdQueue { fds: Vec::new() }
    }

    /// Number of descriptors in the queue.
    pub fn len(&self) -> (n: usize)
        ensures
            n == self@.len(),
    {
        self.fds.len()
    }

    /// Queues the descriptors that one read brought, behind those already
    /// there.
    pub fn collect(&mut self, fds: Vec<i32>)
        ensures
            final(self)@ == old(self)@ + fds@,
    {
        let mut fds = fds;
        self.fds.append(&mut fds);
    }

    /// Takes ownership of all queued descriptors and leaves the queue empty.
    pub fn take_fds(&mut self) -> (fds: Vec<i32>)
        ensures
            fds@ == old(self)@,
            final(self)@ == Seq::<i32>::empty(),
    {
        let mut fds: Vec<i32> = Vec::new();
        std::mem::swap(&mut self.fds, &mut fds);
        fds
    }
}

} // verus!
