//! The handle's side of a call: the frame that starts it and what is made of
//! the answer.

use crate::error::{Error, WireError};
use crate::fd::{present, SideChannel};
use crate::pipe::frame::ByteOrder;
use crate::pipe::stream::{segment_views, Segment};
use crate::pipe::{
    frame_segments, lemma_stream_roundtrip, sendable, stream_segments, DelayedRecvView, Pipe,
    PipeView,
};
use crate::wire::{pair_encoding, Dispatch};
use vstd::prelude::*;

verus! {

/// The frames of one call: the dispatch record and the arguments, which the
/// handle sends, and the answer, which the zygote sends back.
pub struct CallFrames {
    pub dispatch: DelayedRecvView,
    pub args: DelayedRecvView,
    pub reply: DelayedRecvView,
}

/// What the handle sends for a sequence of calls: for each call its dispatch
/// record, then its arguments.
pub open spec fn requests(calls: Seq<CallFrames>) -> Seq<DelayedRecvView>
    decreases calls.len(),
{
    if calls.len() == 0 {
        Seq::<DelayedRecvView>::empty()
    } else {
        seq![calls[0].dispatch, calls[0].args] + requests(calls.skip(1))
    }
}

/// What the zygote sends for a sequence of calls: one answer for each.
pub open spec fn replies(calls: Seq<CallFrames>) -> Seq<DelayedRecvView> {
    calls.map_values(|call: CallFrames| call.reply)
}

proof fn lemma_requests_sendable(calls: Seq<CallFrames>)
    requires
        forall|i: int|
            0 <= i < calls.len() ==> sendable((#[trigger] calls[i]).dispatch) && sendable(
                calls[i].args,
            ),
    ensures
        forall|i: int| 0 <= i < requests(calls).len() ==> sendable(#[trigger] requests(calls)[i]),
    decreases calls.len(),
{
    if calls.len() > 0 {
        let rest = calls.skip(1);
        assert forall|i: int| 0 <= i < rest.len() implies sendable((#[trigger] rest[i]).dispatch)
            && sendable(rest[i].args) by {
            assert(rest[i] == calls[i + 1]);
        }
        lemma_requests_sendable(rest);
        assert forall|i: int| 0 <= i < requests(calls).len() implies sendable(
            #[trigger] requests(calls)[i],
        ) by {
            if i >= 2 {
                assert(requests(calls)[i] == requests(rest)[i - 2]);
            }
        }
    }
}

/// A handle stays usable whatever its calls ended in.
///
/// For any sequence of calls, whatever their answers carry, be it a value or
/// the error of a task that failed or panicked: the zygote takes the requests
/// one by one as they were sent, the handle takes the answers one by one as
/// they were sent, and after the last both ends of the channel are between
/// frames, as they were before the first call.
pub proof fn lemma_handle_stays_usable(order: ByteOrder, calls: Seq<CallFrames>)
    requires
        forall|i: int|
            0 <= i < calls.len() ==> {
                &&& sendable((#[trigger] calls[i]).dispatch)
                &&& sendable(calls[i].args)
                &&& sendable(calls[i].reply)
            },
    ensures
        PipeView::idle(order).received(stream_segments(order, requests(calls))) == (
            PipeView::idle(order),
            requests(calls),
        ),
        PipeView::idle(order).received(stream_segments(order, replies(calls))) == (
            PipeView::idle(order),
            replies(calls),
        ),
{
    lemma_requests_sendable(calls);
    lemma_stream_roundtrip(order, requests(calls));
    lemma_stream_roundtrip(order, replies(calls));
}

/// Lays out the frame that starts a call: the dispatch record, under the
/// fingerprint of its type, with no descriptors.
///
/// The side-channel must hold no descriptor, as before every send, and holds
/// no slot afterwards. The frame is laid out exactly where the encoder accepts
/// the record; where it refuses it, the call fails with an encode error and
/// nothing is to be written.
pub fn send_dispatch(
    pipe: &Pipe,
    record: Dispatch,
    type_id: &[u8; 16],
    channel: &mut SideChannel,
) -> (segments: Result<Vec<Segment>, Error>)
    requires
        present(old(channel)@).len() == 0,
    ensures
        final(channel)@ == Seq::<Option<i32>>::empty(),
        match segments {
            Ok(laid_out) => {
                &&& pair_encoding(record.function, record.runner) matches Some(payload)
                &&& segment_views(laid_out@) == frame_segments(
                    pipe@.order,
                    type_id@,
                    payload,
                    Seq::<i32>::empty(),
                )
            },
            Err(error) => {
                &&& pair_encoding(record.function, record.runner) is None
                &&& error is Encode
            },
        },
{
    channel.begin_transfer();
    match record.serialize() {
        Ok(bytes) => {
            proof {
                assert(present(channel@) =~= Seq::<i32>::empty());
            }
            Ok(pipe.send(type_id, bytes, channel))
        },
        Err(error) => Err(error),
    }
}

/// What the caller of a task gets for the zygote's answer: the task's value,
/// or a wire error for a task that failed.
pub fn reply_result<R>(reply: Result<R, WireError>) -> (result: Result<R, Error>)
    ensures
        match reply {
            Ok(value) => result == Ok::<R, Error>(value),
            Err(wire) => result == Err::<R, Error>(Error::Wire(wire)),
        },
{
    match reply {
        Ok(value) => Ok(value),
        Err(wire) => Err(Error::Wire(wire)),
    }
}

} // verus!
