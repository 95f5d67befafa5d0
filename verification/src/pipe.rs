//! The typed channel between a zygote and its handle.
//!
//! A frame carries one value: the sixteen bytes of its type's fingerprint,
//! the eight bytes of its payload's length, the payload, and then the
//! descriptors that the payload refers to, in chunks of one count byte with at
//! most [`SCM_MAX_FD`] descriptors as ancillary data. A count byte of 255
//! says that its chunk is full and that another follows.
//!
//! A [`Pipe`] does no I/O. To send, it lays out what is to be written; to
//! receive, it says how many bytes it wants next and is fed what was read.

pub mod frame;
pub mod stream;

use crate::error::{Error, ErrorView};
use crate::fd::{present, staged, SideChannel};
use crate::wire::{mismatch, mismatch_text};
use frame::{length_bytes, length_value, lemma_length_roundtrip, ByteOrder, LENGTH_LEN, TYPE_ID_LEN};
use stream::{
    announced, announced_by, fd_chunks, segment_views, write_fds, FdQueue, Segment, SegmentView,
    MORE_CHUNKS, SCM_MAX_FD,
};
use vstd::prelude::*;

verus! {

/// What a pipe reads next.
#[derive(Clone, Copy, Debug, PartialEq, Eq, Structural)]
pub enum Stage {
    /// The fingerprint of the value's type.
    TypeId,
    /// The length of the payload.
    Length,
    /// The payload.
    Payload,
    /// The count byte of a descriptor chunk.
    Count,
    /// Nothing: a whole frame has arrived and waits to be taken.
    Complete,
}

/// A frame as it arrived: fingerprint, payload and descriptors.
pub struct DelayedRecvView {
    pub type_id: Seq<u8>,
    pub buffer: Seq<u8>,
    pub fds: Seq<i32>,
}

/// The model of a [`Pipe`].
pub struct PipeView {
    /// Byte order of the length field.
    pub order: ByteOrder,
    /// What is read next.
    pub stage: Stage,
    /// Fingerprint of the frame that is arriving.
    pub type_id: Seq<u8>,
    /// Length of its payload.
    pub length: u64,
    /// Its payload.
    pub buffer: Seq<u8>,
    /// Number of descriptors that its count bytes have announced so far.
    pub announced: nat,
    /// Descriptors that arrived and were not taken yet.
    pub queue: Seq<i32>,
}

impl PipeView {
    /// A pipe between frames, with nothing read and nothing queued.
    pub open spec fn idle(order: ByteOrder) -> PipeView {
        PipeView {
            order,
            stage: Stage::TypeId,
            type_id: Seq::new(TYPE_ID_LEN as nat, |i: int| 0u8),
            length: 0,
            buffer: Seq::<u8>::empty(),
            announced: 0,
            queue: Seq::<i32>::empty(),
        }
    }

    /// Number of bytes that the pipe wants next.
    pub open spec fn wanted(self) -> nat {
        match self.stage {
            Stage::TypeId => TYPE_ID_LEN as nat,
            Stage::Length => LENGTH_LEN as nat,
            Stage::Payload => self.length as nat,
            Stage::Count => 1,
            Stage::Complete => 0,
        }
    }

    /// The pipe after it was fed the bytes it wanted.
    pub open spec fn fed(self, bytes: Seq<u8>) -> PipeView {
        match self.stage {
            Stage::TypeId => PipeView { type_id: bytes, stage: Stage::Length, ..self },
            Stage::Length => PipeView {
                length: length_value(self.order, bytes),
                stage: Stage::Payload,
                ..self
            },
            Stage::Payload => PipeView { buffer: bytes, stage: Stage::Count, ..self },
            Stage::Count => PipeView {
                announced: self.announced + announced(bytes[0]),
                stage: if bytes[0] == MORE_CHUNKS {
                    Stage::Count
                } else {
                    Stage::Complete
                },
                ..self
            },
            Stage::Complete => self,
        }
    }

    /// The pipe after descriptors arrived as ancillary data.
    pub open spec fn collected(self, fds: Seq<i32>) -> PipeView {
        PipeView { queue: self.queue + fds, ..self }
    }

    /// The frame that has arrived.
    pub open spec fn frame(self) -> DelayedRecvView {
        DelayedRecvView { type_id: self.type_id, buffer: self.buffer, fds: self.queue }
    }

    /// The pipe after one segment, written by the other end, was read whole:
    /// its descriptors arrive with its bytes.
    pub open spec fn deliver(self, segment: SegmentView) -> PipeView {
        match segment {
            SegmentView::Data(bytes) => self.fed(bytes),
            SegmentView::Rights(count, fds) => self.collected(fds).fed(seq![count]),
        }
    }

    /// The pipe after a sequence of segments was read, one read for each.
    pub open spec fn delivered(self, segments: Seq<SegmentView>) -> PipeView
        decreases segments.len(),
    {
        if segments.len() == 0 {
            self
        } else {
            self.deliver(segments[0]).delivered(segments.skip(1))
        }
    }

    /// Whether the reads of this pipe line up with the given segments: each
    /// segment has as many bytes as the pipe wants when its turn comes.
    pub open spec fn lines_up(self, segments: Seq<SegmentView>) -> bool
        decreases segments.len(),
    {
        segments.len() > 0 ==> {
            &&& self.stage != Stage::Complete
            &&& segment_len(segments[0]) == self.wanted()
            &&& self.deliver(segments[0]).lines_up(segments.skip(1))
        }
    }

    /// The pipe and the frames taken from it after a sequence of segments was
    /// read, each frame being taken as soon as it has arrived whole.
    pub open spec fn received(self, segments: Seq<SegmentView>) -> (PipeView, Seq<DelayedRecvView>)
        decreases segments.len(),
    {
        if segments.len() == 0 {
            (self, Seq::<DelayedRecvView>::empty())
        } else {
            let next = self.deliver(segments[0]);
            if next.stage == Stage::Complete {
                let after = PipeView::idle(self.order).received(segments.skip(1));
                (after.0, seq![next.frame()] + after.1)
            } else {
                next.received(segments.skip(1))
            }
        }
    }
}

/// Number of bytes of a segment.
pub open spec fn segment_len(segment: SegmentView) -> nat {
    match segment {
        SegmentView::Data(bytes) => bytes.len(),
        SegmentView::Rights(_, _) => 1,
    }
}

/// What is written for one frame: fingerprint, length, payload, and the
/// chunks of its descriptors.
pub open spec fn frame_segments(
    order: ByteOrder,
    type_id: Seq<u8>,
    payload: Seq<u8>,
    fds: Seq<i32>,
) -> Seq<SegmentView> {
    seq![
        SegmentView::Data(type_id),
        SegmentView::Data(length_bytes(order, payload.len() as u64)),
        SegmentView::Data(payload),
    ] + fd_chunks(fds)
}

/// Whether a frame carries a value of the type with the given fingerprint.
pub open spec fn carries(frame: DelayedRecvView, expected: Seq<u8>) -> bool {
    frame.type_id == expected
}

/// Whether a frame can be sent: its fingerprint has the length of one, and
/// the length of its payload fits the length field.
pub open spec fn sendable(frame: DelayedRecvView) -> bool {
    frame.type_id.len() == TYPE_ID_LEN && frame.buffer.len() <= u64::MAX
}

/// What is written for a sequence of frames, one after the other.
pub open spec fn stream_segments(order: ByteOrder, frames: Seq<DelayedRecvView>) -> Seq<
    SegmentView,
>
    decreases frames.len(),
{
    if frames.len() == 0 {
        Seq::<SegmentView>::empty()
    } else {
        frame_segments(order, frames[0].type_id, frames[0].buffer, frames[0].fds)
            + stream_segments(order, frames.skip(1))
    }
}

proof fn lemma_delivered_step(pipe: PipeView, first: SegmentView, rest: Seq<SegmentView>)
    ensures
        pipe.delivered(seq![first] + rest) == pipe.deliver(first).delivered(rest),
        pipe.lines_up(seq![first] + rest) == (pipe.stage != Stage::Complete && segment_len(first)
            == pipe.wanted() && pipe.deliver(first).lines_up(rest)),
        pipe.deliver(first).stage != Stage::Complete ==> pipe.received(seq![first] + rest)
            == pipe.deliver(first).received(rest),
        pipe.deliver(first).stage == Stage::Complete ==> pipe.received(seq![first] + rest) == (
            PipeView::idle(pipe.order).received(rest).0,
            seq![pipe.deliver(first).frame()] + PipeView::idle(pipe.order).received(rest).1,
        ),
{
    let all = seq![first] + rest;
    assert(all[0] == first);
    assert(all.skip(1) =~= rest);
}

proof fn lemma_chunks_delivered(pipe: PipeView, fds: Seq<i32>, rest: Seq<SegmentView>)
    requires
        pipe.stage == Stage::Count,
    ensures
        pipe.lines_up(fd_chunks(fds)),
        pipe.delivered(fd_chunks(fds)) == (PipeView {
            stage: Stage::Complete,
            announced: pipe.announced + fds.len(),
            queue: pipe.queue + fds,
            ..pipe
        }),
        pipe.received(fd_chunks(fds) + rest) == (
            PipeView::idle(pipe.order).received(rest).0,
            seq![
                DelayedRecvView {
                    type_id: pipe.type_id,
                    buffer: pipe.buffer,
                    fds: pipe.queue + fds,
                },
            ] + PipeView::idle(pipe.order).received(rest).1,
        ),
    decreases fds.len(),
{
    let none = Seq::<SegmentView>::empty();
    if fds.len() > SCM_MAX_FD {
        let head = fds.take(SCM_MAX_FD as int);
        let tail = fds.skip(SCM_MAX_FD as int);
        let first = SegmentView::Rights(MORE_CHUNKS, head);
        let next = pipe.deliver(first);
        assert(seq![MORE_CHUNKS][0] == MORE_CHUNKS);
        assert(next.stage == Stage::Count);
        lemma_chunks_delivered(next, tail, rest);
        lemma_delivered_step(pipe, first, fd_chunks(tail));
        lemma_delivered_step(pipe, first, fd_chunks(tail) + rest);
        assert(fd_chunks(fds) + rest =~= seq![first] + (fd_chunks(tail) + rest));
        assert(head + tail =~= fds);
        assert((pipe.queue + head) + tail =~= pipe.queue + fds);
    } else {
        let count = fds.len() as u8;
        let first = SegmentView::Rights(count, fds);
        assert(seq![count][0] == count);
        assert(fd_chunks(fds) =~= seq![first] + none);
        assert(fd_chunks(fds) + rest =~= seq![first] + rest);
        lemma_delivered_step(pipe, first, none);
        lemma_delivered_step(pipe, first, rest);
    }
}

/// A frame that is written by one end of a channel and read by the other
/// arrives as it was sent.
///
/// The reads of a pipe that is between frames line up with the segments of
/// the frame, and when the last is read the pipe holds a whole frame with the
/// same fingerprint, the same payload and the same descriptors in the same
/// order, of which it was announced exactly as many as arrived.
pub proof fn lemma_frame_roundtrip(
    order: ByteOrder,
    type_id: Seq<u8>,
    payload: Seq<u8>,
    fds: Seq<i32>,
)
    requires
        type_id.len() == TYPE_ID_LEN,
        payload.len() <= u64::MAX,
    ensures
        ({
            let segments = frame_segments(order, type_id, payload, fds);
            let end = PipeView::idle(order).delivered(segments);
            &&& PipeView::idle(order).lines_up(segments)
            &&& end.stage == Stage::Complete
            &&& end.frame() == DelayedRecvView { type_id, buffer: payload, fds }
            &&& end.announced == end.queue.len()
            &&& end.order == order
        }),
{
    let none = Seq::<SegmentView>::empty();
    lemma_frame_received(order, type_id, payload, fds, none);
    assert(fd_chunks(fds) + none =~= fd_chunks(fds));
}

proof fn lemma_frame_received(
    order: ByteOrder,
    type_id: Seq<u8>,
    payload: Seq<u8>,
    fds: Seq<i32>,
    rest: Seq<SegmentView>,
)
    requires
        type_id.len() == TYPE_ID_LEN,
        payload.len() <= u64::MAX,
    ensures
        ({
            let segments = frame_segments(order, type_id, payload, fds);
            let end = PipeView::idle(order).delivered(segments);
            &&& PipeView::idle(order).lines_up(segments)
            &&& end.stage == Stage::Complete
            &&& end.frame() == DelayedRecvView { type_id, buffer: payload, fds }
            &&& end.announced == end.queue.len()
            &&& end.order == order
            &&& PipeView::idle(order).received(segments + rest) == (
                PipeView::idle(order).received(rest).0,
                seq![DelayedRecvView { type_id, buffer: payload, fds }] + PipeView::idle(
                    order,
                ).received(rest).1,
            )
        }),
{
    let length = payload.len() as u64;
    let first = SegmentView::Data(type_id);
    let second = SegmentView::Data(length_bytes(order, length));
    let third = SegmentView::Data(payload);
    let chunks = fd_chunks(fds);
    let segments = frame_segments(order, type_id, payload, fds);
    let idle = PipeView::idle(order);
    let at_length = idle.deliver(first);
    let at_payload = at_length.deliver(second);
    let at_count = at_payload.deliver(third);
    lemma_length_roundtrip(order, length);
    assert(segments =~= seq![first] + (seq![second] + (seq![third] + chunks)));
    assert(segments + rest =~= seq![first] + (seq![second] + (seq![third] + (chunks + rest))));
    lemma_delivered_step(idle, first, seq![second] + (seq![third] + chunks));
    lemma_delivered_step(at_length, second, seq![third] + chunks);
    lemma_delivered_step(at_payload, third, chunks);
    lemma_delivered_step(idle, first, seq![second] + (seq![third] + (chunks + rest)));
    lemma_delivered_step(at_length, second, seq![third] + (chunks + rest));
    lemma_delivered_step(at_payload, third, chunks + rest);
    lemma_chunks_delivered(at_count, fds, rest);
    assert(at_count.queue + fds =~= fds);
}

/// A frame is refused by a receiver that expects a value of another type:
/// what arrives carries the fingerprint it was sent with and no other.
pub proof fn lemma_mistyped_frame_refused(
    order: ByteOrder,
    sent: Seq<u8>,
    expected: Seq<u8>,
    payload: Seq<u8>,
    fds: Seq<i32>,
)
    requires
        sent.len() == TYPE_ID_LEN,
        payload.len() <= u64::MAX,
        sent != expected,
    ensures
        !carries(
            PipeView::idle(order).delivered(frame_segments(order, sent, payload, fds)).frame(),
            expected,
        ),
{
    lemma_frame_roundtrip(order, sent, payload, fds);
}

/// Whatever frames were exchanged before, a channel stays in step: the frames
/// that one end writes one after the other are taken by the other end one by
/// one, unchanged and in order, and after the last the pipe is between frames
/// again, with no descriptor left behind.
pub proof fn lemma_stream_roundtrip(order: ByteOrder, frames: Seq<DelayedRecvView>)
    requires
        forall|i: int| 0 <= i < frames.len() ==> sendable(#[trigger] frames[i]),
    ensures
        PipeView::idle(order).received(stream_segments(order, frames)) == (
            PipeView::idle(order),
            frames,
        ),
    decreases frames.len(),
{
    if frames.len() > 0 {
        let first = frames[0];
        let rest = stream_segments(order, frames.skip(1));
        assert(sendable(first));
        assert forall|i: int| 0 <= i < frames.skip(1).len() implies sendable(
            #[trigger] frames.skip(1)[i],
        ) by {
            assert(frames.skip(1)[i] == frames[i + 1]);
        }
        lemma_stream_roundtrip(order, frames.skip(1));
        lemma_frame_received(order, first.type_id, first.buffer, first.fds, rest);
        assert(seq![first] + frames.skip(1) =~= frames);
    } else {
        assert(frames =~= Seq::<DelayedRecvView>::empty());
    }
}

/// One end of a typed channel.
#[derive(Debug)]
pub struct Pipe {
    order: ByteOrder,
    stage: Stage,
    type_id: [u8; 16],
    length: u64,
    buffer: Vec<u8>,
    announced: usize,
    queue: FdQueue,
}

impl View for Pipe {
    type V = PipeView;

    closed spec fn view(&self) -> PipeView {
        PipeView {
            order: self.order,
            stage: self.stage,
            type_id: self.type_id@,
            length: self.length,
            buffer: self.buffer@,
            announced: self.announced as nat,
            queue: self.queue@,
        }
    }
}

/// A frame that was received and not decoded yet.
///
/// Decoding is put off so that it can run where its failures are caught: in
/// the zygote, inside the guard that also catches the task's panics.
#[derive(Debug)]
pub struct DelayedRecv {
    type_id: [u8; 16],
    buffer: Vec<u8>,
    fds: Vec<i32>,
}

impl View for DelayedRecv {
    type V = DelayedRecvView;

    closed spec fn view(&self) -> DelayedRecvView {
        DelayedRecvView { type_id: self.type_id@, buffer: self.buffer@, fds: self.fds@ }
    }
}

/// A frame that was refused: why, and the descriptors that came with it,
/// which are handed back so that they can be closed.
#[derive(Debug)]
pub struct Refused {
    pub error: Error,
    pub fds: Vec<i32>,
}

/// Whether two fingerprints are the same.
fn same_type_id(a: &[u8; 16], b: &[u8; 16]) -> (same: bool)
    ensures
        same == (a@ == b@),
{
    let mut i: usize = 0;
    while i < 16
        invariant
            i <= 16,
            forall|k: int| 0 <= k < i ==> a@[k] == b@[k],
        decreases 16 - i,
    {
        if a[i] != b[i] {
            return false;
        }
        i = i + 1;
    }
    proof {
        assert(a@ =~= b@);
    }
    true
}

/// Appends a fingerprint to what is to be written.
fn write_type_id(out: &mut Vec<Segment>, type_id: &[u8; 16])
    ensures
        segment_views(final(out)@) == segment_views(old(out)@).push(SegmentView::Data(type_id@)),
{
    let mut tag: Vec<u8> = Vec::new();
    let mut i: usize = 0;
    while i < 16
        invariant
            i <= 16,
            tag@ == type_id@.take(i as int),
        decreases 16 - i,
    {
        tag.push(type_id[i]);
        proof {
            assert(type_id@.take(i + 1) =~= type_id@.take(i as int).push(type_id@[i as int]));
        }
        i = i + 1;
    }
    proof {
        assert(type_id@.take(16) =~= type_id@);
    }
    let ghost before = out@;
    out.push(Segment::Data(tag));
    proof {
        assert(segment_views(out@) =~= segment_views(before).push(SegmentView::Data(type_id@)));
    }
}

/// Appends a length to what is to be written.
fn write_usize(out: &mut Vec<Segment>, order: ByteOrder, n: usize)
    ensures
        segment_views(final(out)@) == segment_views(old(out)@).push(
            SegmentView::Data(length_bytes(order, n as u64)),
        ),
{
    let bytes = order.encode_length(n as u64);
    let ghost before = out@;
    out.push(Segment::Data(bytes));
    proof {
        assert(segment_views(out@) =~= segment_views(before).push(
            SegmentView::Data(length_bytes(order, n as u64)),
        ));
    }
}

/// Appends a payload, behind its length, to what is to be written.
fn write_sized(out: &mut Vec<Segment>, order: ByteOrder, buf: Vec<u8>)
    ensures
        segment_views(final(out)@) == segment_views(old(out)@).push(
            SegmentView::Data(length_bytes(order, buf@.len() as u64)),
        ).push(SegmentView::Data(buf@)),
{
    write_usize(out, order, buf.len());
    let ghost before = out@;
    let ghost payload = buf@;
    out.push(Segment::Data(buf));
    proof {
        assert(segment_views(out@) =~= segment_views(before).push(SegmentView::Data(payload)));
    }
}

impl Pipe {
    /// A pipe between frames, whose peer writes lengths in the given order.
    pub fn new(order: ByteOrder) -> (pipe: Pipe)
        ensures
            pipe@ == PipeView::idle(order),
    {
        let pipe = Pipe {
            order,
            stage: Stage::TypeId,
            type_id: [0u8; 16],
            length: 0,
            buffer: Vec::new(),
            announced: 0,
            queue: FdQueue::new(),
        };
        proof {
            assert(pipe.type_id@ =~= Seq::new(TYPE_ID_LEN as nat, |i: int| 0u8));
        }
        pipe
    }

    /// The two ends of a channel on this machine: both are between frames and
    /// agree on the byte order.
    pub fn pair() -> (ends: (Pipe, Pipe))
        ensures
            ends.0@ == PipeView::idle(ends.0@.order),
            ends.1@ == ends.0@,
    {
        let order = ByteOrder::native();
        (Pipe::new(order), Pipe::new(order))
    }

    /// What the pipe reads next.
    pub fn stage(&self) -> (stage: Stage)
        ensures
            stage == self@.stage,
    {
        self.stage
    }

    /// The fingerprint of the frame that is arriving or has arrived.
    pub fn type_id(&self) -> (type_id: [u8; 16])
        ensures
            type_id@ == self@.type_id,
    {
        self.type_id
    }

    /// Number of bytes that the pipe wants next.
    pub fn wanted(&self) -> (n: u64)
        ensures
            n == self@.wanted(),
    {
        match self.stage {
            Stage::TypeId => 16,
            Stage::Length => 8,
            Stage::Payload => self.length,
            Stage::Count => 1,
            Stage::Complete => 0,
        }
    }

    /// Number of descriptors that the count bytes read so far have announced.
    pub fn announced(&self) -> (n: usize)
        ensures
            n == self@.announced,
    {
        self.announced
    }

    /// Number of descriptors that arrived and were not taken yet.
    pub fn queued(&self) -> (n: usize)
        ensures
            n == self@.queue.len(),
    {
        self.queue.len()
    }

    /// Queues descriptors that a read brought as ancillary data. They stay
    /// with the pipe until the frame they belong to is taken.
    pub fn collect_fds(&mut self, fds: Vec<i32>)
        ensures
            final(self)@ == old(self)@.collected(fds@),
    {
        self.queue.collect(fds);
    }

    /// Takes ownership of all queued descriptors.
    pub fn take_fds(&mut self) -> (fds: Vec<i32>)
        ensures
            fds@ == old(self)@.queue,
            final(self)@ == (PipeView { queue: Seq::<i32>::empty(), ..old(self)@ }),
    {
        self.queue.take_fds()
    }

    /// Feeds the pipe the bytes it wanted.
    ///
    /// The count of announced descriptors has to stay within what the machine
    /// can count; a frame that announces more can never be matched by the
    /// descriptors that arrive.
    pub fn feed(&mut self, bytes: Vec<u8>)
        requires
            old(self)@.stage != Stage::Complete,
            bytes@.len() == old(self)@.wanted(),
            old(self)@.stage == Stage::Count ==> old(self)@.announced + announced(bytes@[0])
                <= usize::MAX,
        ensures
            final(self)@ == old(self)@.fed(bytes@),
    {
        match self.stage {
            Stage::TypeId => {
                let mut type_id = [0u8; 16];
                let mut i: usize = 0;
                while i < 16
                    invariant
                        i <= 16,
                        bytes@.len() == 16,
                        forall|k: int| 0 <= k < i ==> type_id@[k] == bytes@[k],
                    decreases 16 - i,
                {
                    type_id[i] = bytes[i];
                    i = i + 1;
                }
                proof {
                    assert(type_id@ =~= bytes@);
                }
                self.type_id = type_id;
                self.stage = Stage::Length;
            },
            Stage::Length => {
                let mut length = [0u8; 8];
                let mut i: usize = 0;
                while i < 8
                    invariant
                        i <= 8,
                        bytes@.len() == 8,
                        forall|k: int| 0 <= k < i ==> length@[k] == bytes@[k],
                    decreases 8 - i,
                {
                    length[i] = bytes[i];
                    i = i + 1;
                }
                proof {
                    assert(length@ =~= bytes@);
                }
                self.length = self.order.decode_length(&length);
                self.stage = Stage::Payload;
            },
            Stage::Payload => {
                self.buffer = bytes;
                self.stage = Stage::Count;
            },
            Stage::Count => {
                let count = bytes[0];
                self.announced = self.announced + announced_by(count);
                if count != MORE_CHUNKS {
                    self.stage = Stage::Complete;
                }
            },
            Stage::Complete => {},
        }
    }

    /// Lays out one frame: what is to be written, in order, to send a value.
    ///
    /// `bytes` is the serialized value and `channel` holds the descriptors
    /// that serializing it staged, on a side-channel that was opened for this
    /// transfer before the value was serialized (see
    /// [`SideChannel::begin_transfer`]). They are harvested, so that the
    /// side-channel is empty when the frame is laid out.
    pub fn send(&self, type_id: &[u8; 16], bytes: Vec<u8>, channel: &mut SideChannel) -> (segments:
        Vec<Segment>)
        ensures
            segment_views(segments@) == frame_segments(
                self@.order,
                type_id@,
                bytes@,
                present(old(channel)@),
            ),
            final(channel)@ == Seq::<Option<i32>>::empty(),
    {
        let fds = channel.swap_fds(Vec::new());
        let mut segments: Vec<Segment> = Vec::new();
        proof {
            assert(staged(Seq::<i32>::empty()) =~= Seq::<Option<i32>>::empty());
            assert(segment_views(segments@) =~= Seq::<SegmentView>::empty());
        }
        let ghost payload = bytes@;
        write_type_id(&mut segments, type_id);
        write_sized(&mut segments, self.order, bytes);
        write_fds(&mut segments, &fds);
        proof {
            assert(segment_views(segments@) =~= frame_segments(
                self.order,
                type_id@,
                payload,
                fds@,
            ));
        }
        segments
    }

    /// Hands out the parts of the frame that has arrived and returns the pipe
    /// to where it is between frames.
    ///
    /// As many descriptors must have arrived as the frame's count bytes
    /// announced.
    pub fn recv_parts_into(
        &mut self,
        type_id: &mut [u8; 16],
        buffer: &mut Vec<u8>,
        fds: &mut Vec<i32>,
    )
        requires
            old(self)@.stage == Stage::Complete,
            old(self)@.queue.len() == old(self)@.announced,
        ensures
            final(type_id)@ == old(self)@.type_id,
            final(buffer)@ == old(self)@.buffer,
            final(fds)@ == old(self)@.queue,
            final(self)@ == PipeView::idle(old(self)@.order),
    {
        *type_id = self.type_id;
        let mut taken: Vec<u8> = Vec::new();
        std::mem::swap(&mut self.buffer, &mut taken);
        *buffer = taken;
        *fds = self.queue.take_fds();
        self.type_id = [0u8; 16];
        self.length = 0;
        self.announced = 0;
        self.stage = Stage::TypeId;
        proof {
            assert(self.type_id@ =~= Seq::new(TYPE_ID_LEN as nat, |i: int| 0u8));
        }
    }

    /// Takes the frame that has arrived, undecoded.
    pub fn recv_delayed(&mut self) -> (frame: DelayedRecv)
        requires
            old(self)@.stage == Stage::Complete,
            old(self)@.queue.len() == old(self)@.announced,
        ensures
            frame@ == old(self)@.frame(),
            final(self)@ == PipeView::idle(old(self)@.order),
    {
        let mut type_id = [0u8; 16];
        let mut buffer: Vec<u8> = Vec::new();
        let mut fds: Vec<i32> = Vec::new();
        self.recv_parts_into(&mut type_id, &mut buffer, &mut fds);
        DelayedRecv { type_id, buffer, fds }
    }

    /// Takes the frame that has arrived and opens it as a value of the type
    /// with the fingerprint `expected`: see [`DelayedRecv::deserialize`].
    pub fn recv(
        &mut self,
        expected: &[u8; 16],
        expected_type: &str,
        channel: &mut SideChannel,
    ) -> (payload: Result<Vec<u8>, Refused>)
        requires
            old(self)@.stage == Stage::Complete,
            old(self)@.queue.len() == old(self)@.announced,
            carries(old(self)@.frame(), expected@) ==> present(old(channel)@).len() == 0,
        ensures
            final(self)@ == PipeView::idle(old(self)@.order),
            match payload {
                Ok(bytes) => {
                    &&& carries(old(self)@.frame(), expected@)
                    &&& bytes@ == old(self)@.buffer
                    &&& final(channel)@ == staged(old(self)@.queue)
                },
                Err(refused) => {
                    &&& !carries(old(self)@.frame(), expected@)
                    &&& refused.error@ == ErrorView::Decode(mismatch_text(expected_type@))
                    &&& refused.fds@ == old(self)@.queue
                    &&& final(channel)@ == old(channel)@
                },
            },
    {
        let frame = self.recv_delayed();
        frame.deserialize(expected, expected_type, channel)
    }
}

impl DelayedRecv {
    /// The fingerprint that the frame came with.
    pub fn type_id(&self) -> (type_id: [u8; 16])
        ensures
            type_id@ == self@.type_id,
    {
        self.type_id
    }

    /// Opens the frame as a value of the type with the fingerprint
    /// `expected`, whose name is `expected_type`.
    ///
    /// A frame with another fingerprint is refused with a decode error; the
    /// side-channel is not touched and the frame's descriptors are handed
    /// back. Otherwise the descriptors are staged in the side-channel, in the
    /// order they arrived in, and the payload is handed out to be decoded; the
    /// side-channel must hold no descriptor when that happens.
    pub fn deserialize(
        self,
        expected: &[u8; 16],
        expected_type: &str,
        channel: &mut SideChannel,
    ) -> (payload: Result<Vec<u8>, Refused>)
        requires
            carries(self@, expected@) ==> present(old(channel)@).len() == 0,
        ensures
            match payload {
                Ok(bytes) => {
                    &&& carries(self@, expected@)
                    &&& bytes@ == self@.buffer
                    &&& final(channel)@ == staged(self@.fds)
                },
                Err(refused) => {
                    &&& !carries(self@, expected@)
                    &&& refused.error@ == ErrorView::Decode(mismatch_text(expected_type@))
                    &&& refused.fds@ == self@.fds
                    &&& final(channel)@ == old(channel)@
                },
            },
    {
        if !same_type_id(&self.type_id, expected) {
            return Err(Refused { error: mismatch(expected_type), fds: self.fds });
        }
        let _orphans = channel.swap_fds(self.fds);
        Ok(self.buffer)
    }
}

} // verus!
