//! Passing a value to the codec by value or by reference.

use vstd::prelude::*;

verus! {

/// A value that can be handed to the codec as a reference to a `T`: a `T`
/// itself, or a reference to one.
pub trait AsCodecRef<T> {
    /// The value that the codec gets to see.
    spec fn codec_ref(&self) -> &T;

    fn as_codec_ref(&self) -> (value: &T)
        ensures
            value == self.codec_ref(),
    ;
}

impl<T> AsCodecRef<T> for T {
    open spec fn codec_ref(&self) -> &T {
        self
    }

    fn as_codec_ref(&self) -> (value: &T) {
        self
    }
}

impl<'a, T> AsCodecRef<T> for &'a T {
    open spec fn codec_ref(&self) -> &T {
        *self
    }

    fn as_codec_ref(&self) -> (value: &T) {
        *self
    }
}

} // verus!
