//! The zygote's side of a call: how it reads the record that starts one, how
//! a panic reaches the caller as an error, what is answered for each way a
//! task can end, and with which status the zygote exits when its channel
//! fails.

use crate::error::{bare_link, Error, ErrorLink, ErrorView, IoKind, WireError};
use crate::fd::{present, staged, SideChannel};
use crate::pipe::{carries, Pipe, PipeView, Refused, Stage};
use crate::wire::{mismatch_text, pair_decoding, Dispatch};
use vstd::prelude::*;

verus! {

/// What is reported for a panic of which nothing was recorded.
pub open spec fn panic_not_found() -> Seq<ErrorLink> {
    seq![bare_link("panic information not found"@)]
}

/// The place where the panic hook leaves the error of the panic that it saw,
/// for the trampoline to pick up once the panic has been caught.
#[derive(Debug)]
pub struct PanicSlot {
    error: Option<WireError>,
}

impl View for PanicSlot {
    type V = Option<Seq<ErrorLink>>;

    closed spec fn view(&self) -> Option<Seq<ErrorLink>> {
        match self.error {
            Some(error) => Some(error@),
            None => None,
        }
    }
}

impl PanicSlot {
    /// A slot that holds nothing.
    pub fn new() -> (slot: PanicSlot)
        ensures
            slot@ is None,
    {
        PanicSlot { error: None }
    }
}

/// Records the error of a panic, in place of what was recorded before.
pub fn set_panic(slot: &mut PanicSlot, error: WireError)
    ensures
        final(slot)@ == Some(error@),
{
    slot.error = Some(error);
}

/// Takes the error of the last panic out of the slot. Where none was
/// recorded, the error says so.
pub fn take_panic(slot: &mut PanicSlot) -> (error: WireError)
    ensures
        final(slot)@ is None,
        error@ == match old(slot)@ {
            Some(recorded) => recorded,
            None => panic_not_found(),
        },
{
    let mut taken: Option<WireError> = None;
    std::mem::swap(&mut slot.error, &mut taken);
    match taken {
        Some(error) => error,
        None => WireError::from_str("panic information not found"),
    }
}

/// Takes the frame that has arrived and reads it as the dispatch record that
/// starts a call.
///
/// A frame under another fingerprint than that of the record's type is
/// refused with a decode error; the side-channel is not touched and the
/// frame's descriptors are handed back. Otherwise the frame's descriptors are
/// staged, and the record is read exactly where the decoder accepts the
/// payload; where it does not, the decoder's error is returned. Either way the
/// pipe is between frames afterwards.
pub fn recv_dispatch(
    pipe: &mut Pipe,
    type_id: &[u8; 16],
    expected_type: &str,
    channel: &mut SideChannel,
) -> (record: Result<Dispatch, Refused>)
    requires
        old(pipe)@.stage == Stage::Complete,
        old(pipe)@.queue.len() == old(pipe)@.announced,
        carries(old(pipe)@.frame(), type_id@) ==> present(old(channel)@).len() == 0,
    ensures
        final(pipe)@ == PipeView::idle(old(pipe)@.order),
        match record {
            Ok(dispatch) => {
                &&& carries(old(pipe)@.frame(), type_id@)
                &&& pair_decoding(old(pipe)@.buffer) == Some((dispatch.function, dispatch.runner))
                &&& final(channel)@ == staged(old(pipe)@.queue)
            },
            Err(refused) => if carries(old(pipe)@.frame(), type_id@) {
                &&& pair_decoding(old(pipe)@.buffer) is None
                &&& refused.error is Decode
                &&& refused.fds@ == Seq::<i32>::empty()
                &&& final(channel)@ == staged(old(pipe)@.queue)
            } else {
                &&& refused.error@ == ErrorView::Decode(mismatch_text(expected_type@))
                &&& refused.fds@ == old(pipe)@.queue
                &&& final(channel)@ == old(channel)@
            },
        },
{
    match pipe.recv(type_id, expected_type, channel) {
        Ok(payload) => match Dispatch::deserialize(&payload) {
            Ok(dispatch) => Ok(dispatch),
            Err(error) => Err(Refused { error, fds: Vec::new() }),
        },
        Err(refused) => Err(refused),
    }
}

/// How a task ended in the zygote.
#[derive(Debug)]
pub enum TaskOutcome<R> {
    /// The task ran and returned a value.
    Returned(R),
    /// The task never ran: its arguments could not be decoded, and the error
    /// says why.
    Refused(WireError),
    /// Decoding the arguments or running the task panicked.
    Panicked,
}

/// What the zygote answers for a task.
///
/// A value is answered as it is, and so is the error that refused the task's
/// arguments. A panic is answered with the error that the panic hook
/// recorded, which is taken out of the slot. There is an answer for every
/// outcome: no task, however it ends, leaves its caller without one.
pub fn task_reply<R>(outcome: TaskOutcome<R>, slot: &mut PanicSlot) -> (reply: Result<R, WireError>)
    ensures
        match outcome {
            TaskOutcome::Returned(value) => reply == Ok::<R, WireError>(value) && final(slot)@
                == old(slot)@,
            TaskOutcome::Refused(error) => reply == Err::<R, WireError>(error) && final(slot)@
                == old(slot)@,
            TaskOutcome::Panicked => {
                &&& reply matches Err(wire)
                &&& wire@ == match old(slot)@ {
                    Some(recorded) => recorded,
                    None => panic_not_found(),
                }
                &&& final(slot)@ is None
            },
        },
{
    match outcome {
        TaskOutcome::Returned(value) => Ok(value),
        TaskOutcome::Refused(error) => Err(error),
        TaskOutcome::Panicked => Err(take_panic(slot)),
    }
}

/// Whether an error means that the other end of the channel went away.
pub open spec fn peer_gone(error: Error) -> bool {
    error matches Error::Io(failure) && (failure.kind == IoKind::UnexpectedEof || failure.kind
        == IoKind::BrokenPipe)
}

/// The status that the zygote exits with when its main loop ends.
///
/// A loop that ended because the handle went away is a clean exit, like one
/// that ended without an error; any other error is a failure.
pub fn exit_code(outcome: &Result<(), Error>) -> (code: i32)
    ensures
        code == match *outcome {
            Ok(_) => 0i32,
            Err(error) => if peer_gone(error) {
                0i32
            } else {
                1i32
            },
        },
{
    match outcome {
        Ok(_) => 0,
        Err(Error::Io(failure)) => match failure.kind {
            IoKind::UnexpectedEof => 0,
            IoKind::BrokenPipe => 0,
            IoKind::Other => 1,
        },
        Err(_) => 1,
    }
}

} // verus!
