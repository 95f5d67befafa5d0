use zygote::call::{reply_result, send_dispatch};
use zygote::error::{BacktraceStatus, Error, IoFailure, IoKind, WireError};
use zygote::fd::SideChannel;
use zygote::pipe::frame::ByteOrder;
use zygote::pipe::stream::Segment;
use zygote::pipe::{Pipe, Stage};
use zygote::task::{
    exit_code, recv_dispatch, set_panic, take_panic, task_reply, PanicSlot, TaskOutcome,
};
use zygote::wire::{decoded, encoded, mismatch, Dispatch};

const PAIR_ID: [u8; 16] = [9; 16];
const OTHER_ID: [u8; 16] = [8; 16];

fn deliver(pipe: &mut Pipe, segments: Vec<Segment>) {
    for segment in segments {
        match segment {
            Segment::Data(bytes) => pipe.feed(bytes),
            Segment::Rights(count, fds) => {
                pipe.collect_fds(fds);
                pipe.feed(vec![count]);
            }
        }
    }
}

#[test]
fn dispatch_record_is_an_array_of_two() {
    let record = Dispatch { function: 1, runner: 2 };
    assert_eq!(record.serialize().unwrap(), vec![0x92, 1, 2]);
    let record = Dispatch { function: 0x1234, runner: 0xffff_ffff_ffff_fff0 };
    assert_eq!(
        record.serialize().unwrap(),
        vec![0x92, 0xcd, 0x12, 0x34, 0xcf, 0xff, 0xff, 0xff, 0xff, 0xff, 0xff, 0xff, 0xf0]
    );
}

#[test]
fn dispatch_record_round_trip() {
    let record = Dispatch { function: 0x5555_0000_1234, runner: 0x7fff_ffff_0000 };
    let bytes = record.serialize().unwrap();
    assert_eq!(bytes, rmp_serde::to_vec_named(&[0x5555_0000_1234usize, 0x7fff_ffff_0000]).unwrap());
    assert_eq!(Dispatch::deserialize(&bytes).unwrap(), record);
}

#[test]
fn dispatch_record_refuses_other_values() {
    let text = rmp_serde::to_vec_named("hello").unwrap();
    let err = Dispatch::deserialize(&text).unwrap_err();
    assert!(matches!(err, Error::Decode(_)));
    let three = rmp_serde::to_vec_named(&[1u64, 2, 3]).unwrap();
    assert!(matches!(Dispatch::deserialize(&three), Err(Error::Decode(_))));
    assert!(matches!(Dispatch::deserialize(&vec![]), Err(Error::Decode(_))));
}

#[test]
fn codec_outcomes_become_errors() {
    assert_eq!(encoded(Ok(vec![1, 2])).unwrap(), vec![1, 2]);
    assert!(matches!(encoded(Err(String::from("no"))), Err(Error::Encode(m)) if m == "no"));
    assert_eq!(decoded(Ok((3, 4))).unwrap(), Dispatch { function: 3, runner: 4 });
    assert!(matches!(decoded(Err(String::from("no"))), Err(Error::Decode(m)) if m == "no"));
}

#[test]
fn mismatch_names_the_type() {
    let err = mismatch("u32");
    assert!(matches!(&err, Error::Decode(m) if m == "uncategorized error: Invalid type id for u32"));
}

#[test]
fn a_call_starts_with_the_dispatch_record() {
    let (handle, mut zygote) = Pipe::pair();
    let mut channel = SideChannel::new();
    let record = Dispatch { function: 77, runner: 1234 };

    let segments = send_dispatch(&handle, record, &PAIR_ID, &mut channel).unwrap();
    assert_eq!(segments.len(), 4);
    assert!(matches!(&segments[2], Segment::Data(b) if b[..] == [0x92, 77, 0xcd, 0x04, 0xd2]));
    assert!(matches!(&segments[3], Segment::Rights(0, fds) if fds.is_empty()));
    deliver(&mut zygote, segments);

    let received = recv_dispatch(&mut zygote, &PAIR_ID, "[usize; 2]", &mut channel).unwrap();
    assert_eq!(received, record);
    assert_eq!(channel.end_transfer(), Ok(()));
    assert_eq!(zygote.stage(), Stage::TypeId);
}

#[test]
fn a_mistyped_dispatch_is_refused() {
    let handle = Pipe::new(ByteOrder::Big);
    let mut zygote = Pipe::new(ByteOrder::Big);
    let mut channel = SideChannel::new();
    let segments =
        send_dispatch(&handle, Dispatch { function: 1, runner: 2 }, &OTHER_ID, &mut channel)
            .unwrap();
    deliver(&mut zygote, segments);

    let refused = recv_dispatch(&mut zygote, &PAIR_ID, "[usize; 2]", &mut channel).unwrap_err();
    assert_eq!(
        refused.error.to_string(),
        "decode error: uncategorized error: Invalid type id for [usize; 2]"
    );
    assert_eq!(zygote.stage(), Stage::TypeId);
}

#[test]
fn a_panic_is_reported_once() {
    let mut slot = PanicSlot::new();
    set_panic(&mut slot, WireError::from_str("first"));
    set_panic(
        &mut slot,
        WireError::from_panic(String::from("oops"), BacktraceStatus::Captured, String::from("bt")),
    );
    let taken = take_panic(&mut slot);
    assert_eq!(taken.description(), "oops");
    assert_eq!(taken.backtrace(), Some("bt"));
    let again = take_panic(&mut slot);
    assert_eq!(again.description(), "panic information not found");
    assert!(again.backtrace().is_none());
    assert!(again.source().is_none());
}

#[test]
fn a_value_is_answered_as_it_is() {
    let mut slot = PanicSlot::new();
    set_panic(&mut slot, WireError::from_str("stale"));
    let reply = task_reply(TaskOutcome::Returned(42u32), &mut slot);
    assert_eq!(reply.unwrap(), 42);
    assert_eq!(take_panic(&mut slot).description(), "stale");
}

#[test]
fn a_panic_is_answered_with_what_the_hook_saw() {
    let mut slot = PanicSlot::new();
    set_panic(&mut slot, WireError::from_str("sorry Zygote, that didn't work"));
    let reply: Result<String, WireError> = task_reply(TaskOutcome::Panicked, &mut slot);
    assert!(reply.unwrap_err().to_string().contains("sorry Zygote"));
    let reply: Result<String, WireError> = task_reply(TaskOutcome::Panicked, &mut slot);
    assert_eq!(reply.unwrap_err().to_string(), "panic information not found");
}

#[test]
fn refused_arguments_are_answered_with_the_error() {
    let mut slot = PanicSlot::new();
    let refusal = WireError::from_error(&mismatch("alloc::string::String"));
    let reply: Result<u8, WireError> = task_reply(TaskOutcome::Refused(refusal), &mut slot);
    let wire = reply.unwrap_err();
    assert_eq!(
        wire.chain(),
        vec![
            "decode error: uncategorized error: Invalid type id for alloc::string::String",
            "uncategorized error: Invalid type id for alloc::string::String",
        ]
    );
}

#[test]
fn a_failed_task_is_a_wire_error() {
    assert_eq!(reply_result(Ok::<u32, WireError>(42)).unwrap(), 42);
    let err = reply_result(Err::<u32, WireError>(WireError::from_str("some wire error")))
        .unwrap_err();
    assert!(matches!(&err, Error::Wire(_)));
    assert!(err.to_string().contains("some wire error"));
    assert_eq!(err.to_string(), "wire error: some wire error");
}

#[test]
fn a_handle_that_went_away_is_a_clean_exit() {
    let io = |kind: IoKind| Err(Error::Io(IoFailure { kind, message: String::from("x") }));
    assert_eq!(exit_code(&Ok(())), 0);
    assert_eq!(exit_code(&io(IoKind::UnexpectedEof)), 0);
    assert_eq!(exit_code(&io(IoKind::BrokenPipe)), 0);
    assert_eq!(exit_code(&io(IoKind::Other)), 1);
    assert_eq!(exit_code(&Err(Error::Decode(String::new()))), 1);
    assert_eq!(exit_code(&Err(Error::Encode(String::new()))), 1);
    assert_eq!(exit_code(&Err(Error::Wire(WireError::from_str("x")))), 1);
}

#[test]
fn a_dispatch_that_is_no_record_is_refused() {
    let (handle, mut zygote) = Pipe::pair();
    let mut channel = SideChannel::new();
    let text = rmp_serde::to_vec_named("hello").unwrap();
    let segments = handle.send(&PAIR_ID, text, &mut channel);
    deliver(&mut zygote, segments);

    let refused = recv_dispatch(&mut zygote, &PAIR_ID, "[usize; 2]", &mut channel).unwrap_err();
    assert!(matches!(refused.error, Error::Decode(_)));
    assert!(refused.fds.is_empty());
    assert_eq!(zygote.stage(), Stage::TypeId);
}
