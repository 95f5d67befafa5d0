//! A descriptor wrapper under the name that it is sent by.

use crate::fd::SideChannel;
use vstd::prelude::*;

verus! {

/// Wrapper type that marks a file descriptor as one to be sent along with the
/// value that holds it.
#[derive(Debug)]
pub struct SendableFd<T>(T);

impl<T> SendableFd<T> {
    /// The wrapped value.
    pub closed spec fn inner(self) -> T {
        self.0
    }

    /// Wraps a value.
    pub fn new(val: T) -> (wrapped: SendableFd<T>)
        ensures
            wrapped.inner() == val,
    {
        SendableFd(val)
    }

    /// Unwraps the value.
    pub fn into_inner(self) -> (val: T)
        ensures
            val == self.inner(),
    {
        self.0
    }

    /// A reference to the wrapped value.
    pub fn get(&self) -> (val: &T)
        ensures
            *val == self.inner(),
    {
        &self.0
    }
}

impl<T> From<T> for SendableFd<T> {
    fn from(value: T) -> (wrapped: SendableFd<T>) {
        SendableFd(value)
    }
}

impl<T> vstd::std_specs::convert::FromSpecImpl<T> for SendableFd<T> {
    open spec fn obeys_from_spec() -> bool {
        true
    }

    closed spec fn from_spec(value: T) -> SendableFd<T> {
        SendableFd(value)
    }
}

/// Converting a value into the wrapper wraps that value.
pub proof fn lemma_from_wraps<T>(value: T)
    ensures
        <SendableFd<T> as vstd::std_specs::convert::FromSpec<T>>::from_spec(value).inner() == value,
{
}

impl SendableFd<i32> {
    /// Stages the descriptor in the side-channel and returns the index that is
    /// written to the payload in its place.
    pub fn serialize(&self, channel: &mut SideChannel) -> (index: usize)
        ensures
            final(channel)@ == old(channel)@.push(Some(self.inner())),
            index == old(channel)@.len(),
    {
        channel.push_fd(self.0)
    }

    /// Claims the descriptor that the index read from the payload stands for.
    ///
    /// The slot must hold a descriptor: a payload that names a slot which does
    /// not exist or was claimed before does not match what was sent.
    pub fn deserialize(index: usize, channel: &mut SideChannel) -> (wrapped: SendableFd<i32>)
        requires
            index < old(channel)@.len(),
            old(channel)@[index as int] is Some,
        ensures
            Some(wrapped.inner()) == old(channel)@[index as int],
            final(channel)@ == old(channel)@.update(index as int, None),
    {
        SendableFd(channel.take_fd(index).unwrap())
    }
}

} // verus!
