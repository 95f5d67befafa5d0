//! The wire codec of the values that the protocol itself exchanges.
//!
//! A call starts with a dispatch record: the code address of the task and the
//! code address of the trampoline that decodes its arguments, runs it and
//! encodes its result. The record travels as MessagePack, like every payload.

use crate::error::Error;
use vstd::prelude::*;

verus! {

/// The bytes that `rmp_serde::to_vec_named` gives for an array of the two
/// integers, or `None` where it refuses them.
pub uninterp spec fn pair_encoding(first: u64, second: u64) -> Option<Seq<u8>>;

/// The two integers that `rmp_serde::from_slice` reads from `bytes` as an
/// array of two 64-bit unsigned integers, or `None` where it refuses them.
pub uninterp spec fn pair_decoding(bytes: Seq<u8>) -> Option<(u64, u64)>;

/// The message of a decode error that fits no other category.
pub open spec fn uncategorized(message: Seq<char>) -> Seq<char> {
    "uncategorized error: "@ + message
}

/// The message of the decode error that refuses a frame whose fingerprint is
/// not that of the type asked for.
pub open spec fn mismatch_text(expected_type: Seq<char>) -> Seq<char> {
    uncategorized("Invalid type id for "@ + expected_type)
}

/// Calls `rmp_serde::to_vec_named` on the array of the two integers. What it
/// answers depends on the two integers alone: the encoder writes into a
/// buffer of its own and fails on such an array only where that buffer cannot
/// grow, which is left aside here as it is for the vectors of std. An error
/// is handed on as the text it prints as.
#[verifier::external_body]
fn encode_pair(first: u64, second: u64) -> (encoded: Result<Vec<u8>, String>)
    ensures
        match encoded {
            Ok(bytes) => pair_encoding(first, second) == Some(bytes@),
            Err(_) => pair_encoding(first, second) is None,
        },
{
    match rmp_serde::to_vec_named(&[first, second]) {
        Ok(bytes) => Ok(bytes),
        Err(error) => Err(error.to_string()),
    }
}

/// Calls `rmp_serde::from_slice` for an array of two 64-bit unsigned integers.
/// What it answers depends on the bytes alone; an error is handed on as the
/// text it prints as.
#[verifier::external_body]
fn decode_pair(bytes: &[u8]) -> (decoded: Result<(u64, u64), String>)
    ensures
        match decoded {
            Ok(pair) => pair_decoding(bytes@) == Some(pair),
            Err(_) => pair_decoding(bytes@) is None,
        },
{
    match rmp_serde::from_slice::<[u64; 2]>(bytes) {
        Ok(pair) => Ok((pair[0], pair[1])),
        Err(error) => Err(error.to_string()),
    }
}

/// What `rmp_serde::decode::Error::Uncategorized` prints as: its message
/// behind the words "uncategorized error: ".
#[verifier::external_body]
fn uncategorized_text(message: &str) -> (text: String)
    ensures
        text@ == uncategorized(message@),
{
    rmp_serde::decode::Error::Uncategorized(message.to_owned()).to_string()
}

/// The two code addresses that start a call.
#[derive(Clone, Copy, Debug, PartialEq, Eq, Structural)]
pub struct Dispatch {
    /// Code address of the task.
    pub function: u64,
    /// Code address of the trampoline for the task's argument and result
    /// types.
    pub runner: u64,
}

/// The outcome of encoding a payload, as the protocol reports it.
pub fn encoded(outcome: Result<Vec<u8>, String>) -> (payload: Result<Vec<u8>, Error>)
    ensures
        match outcome {
            Ok(bytes) => payload == Ok::<Vec<u8>, Error>(bytes),
            Err(message) => payload == Err::<Vec<u8>, Error>(Error::Encode(message)),
        },
{
    match outcome {
        Ok(bytes) => Ok(bytes),
        Err(message) => Err(Error::Encode(message)),
    }
}

/// The outcome of decoding a dispatch record, as the protocol reports it.
pub fn decoded(outcome: Result<(u64, u64), String>) -> (record: Result<Dispatch, Error>)
    ensures
        match outcome {
            Ok(pair) => record == Ok::<Dispatch, Error>(
                Dispatch { function: pair.0, runner: pair.1 },
            ),
            Err(message) => record == Err::<Dispatch, Error>(Error::Decode(message)),
        },
{
    match outcome {
        Ok(pair) => Ok(Dispatch { function: pair.0, runner: pair.1 }),
        Err(message) => Err(Error::Decode(message)),
    }
}

impl Dispatch {
    /// The payload that carries this record.
    ///
    /// It is the encoding of the two addresses, the task's first, exactly
    /// where the encoder accepts them; where it refuses them the error is an
    /// encode error.
    pub fn serialize(&self) -> (payload: Result<Vec<u8>, Error>)
        ensures
            match payload {
                Ok(bytes) => pair_encoding(self.function, self.runner) == Some(bytes@),
                Err(error) => pair_encoding(self.function, self.runner) is None && error is Encode,
            },
    {
        encoded(encode_pair(self.function, self.runner))
    }

    /// Reads a record from a payload.
    ///
    /// It is read exactly where the decoder accepts the bytes as an array of
    /// two integers, and refused with a decode error where it does not.
    pub fn deserialize(bytes: &Vec<u8>) -> (record: Result<Dispatch, Error>)
        ensures
            match record {
                Ok(dispatch) => pair_decoding(bytes@) == Some(
                    (dispatch.function, dispatch.runner),
                ),
                Err(error) => pair_decoding(bytes@) is None && error is Decode,
            },
    {
        decoded(decode_pair(bytes.as_slice()))
    }
}

/// The error that refuses a frame whose fingerprint is not that of the type
/// that the receiver asked for.
pub fn mismatch(expected_type: &str) -> (error: Error)
    ensures
        error@ == crate::error::ErrorView::Decode(mismatch_text(expected_type@)),
{
    let mut message = String::from_str("Invalid type id for ");
    message.append(expected_type);
    Error::Decode(uncategorized_text(message.as_str()))
}

} // verus!
