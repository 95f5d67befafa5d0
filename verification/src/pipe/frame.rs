//! The fixed-size fields of a channel frame: the sixteen bytes of the type
//! fingerprint and the eight bytes of the payload length, which are written in
//! the byte order of the machine that both ends of a channel run on.

use vstd::bytes::{
    lemma_auto_spec_u64_to_from_le_bytes, spec_u64_from_le_bytes, spec_u64_to_le_bytes,
    u64_from_le_bytes, u64_to_le_bytes,
};
use vstd::prelude::*;

verus! {

/// Number of bytes of a type fingerprint.
pub const TYPE_ID_LEN: usize = 16;

/// Number of bytes of a payload length.
pub const LENGTH_LEN: usize = 8;

/// The order in which the bytes of a multi-byte integer are written.
#[derive(Clone, Copy, Debug, PartialEq, Eq, Structural)]
pub enum ByteOrder {
    /// Least significant byte first.
    Little,
    /// Most significant byte first.
    Big,
}

/// The eight bytes that stand for `value` in the given order.
pub open spec fn length_bytes(order: ByteOrder, value: u64) -> Seq<u8> {
    match order {
        ByteOrder::Little => spec_u64_to_le_bytes(value),
        ByteOrder::Big => spec_u64_to_le_bytes(value).reverse(),
    }
}

/// The length that eight bytes stand for in the given order.
pub open spec fn length_value(order: ByteOrder, bytes: Seq<u8>) -> u64 {
    match order {
        ByteOrder::Little => spec_u64_from_le_bytes(bytes),
        ByteOrder::Big => spec_u64_from_le_bytes(bytes.reverse()),
    }
}

/// A length survives being written and read back in the same byte order, and
/// takes eight bytes in either.
pub proof fn lemma_length_roundtrip(order: ByteOrder, value: u64)
    ensures
        length_bytes(order, value).len() == LENGTH_LEN,
        length_value(order, length_bytes(order, value)) == value,
{
    lemma_auto_spec_u64_to_from_le_bytes();
    let le = spec_u64_to_le_bytes(value);
    assert(le.reverse().reverse() =~= le);
}

/// What the bytes 1 and 0 stand for as a 16-bit integer in the given order.
pub open spec fn probe_value(order: ByteOrder) -> int {
    match order {
        ByteOrder::Little => 1,
        ByteOrder::Big => 256,
    }
}

/// The byte order that is told by what the bytes 1 and 0 were read as.
pub open spec fn probed_order(value: u16) -> ByteOrder {
    if value == 1 {
        ByteOrder::Little
    } else {
        ByteOrder::Big
    }
}

/// The order told by a probe is the one in which the probe bytes stand for
/// the value that was read, for both values that a machine can read.
pub proof fn lemma_probe_tells_order(value: u16)
    requires
        value == 1 || value == 256,
    ensures
        probe_value(probed_order(value)) == value,
{
}

/// Reads `u16::from_ne_bytes` on the bytes 1 and 0: the result is 1 where the
/// machine puts the least significant byte first and 256 where it puts it last.
#[verifier::external_body]
fn native_probe() -> (value: u16)
    ensures
        value == 1 || value == 256,
{
    u16::from_ne_bytes([1, 0])
}

/// A copy of `bytes` in reverse order.
fn reversed(bytes: &[u8]) -> (out: Vec<u8>)
    ensures
        out@ == bytes@.reverse(),
{
    let mut out: Vec<u8> = Vec::new();
    let n = bytes.len();
    let mut i: usize = 0;
    while i < n
        invariant
            n == bytes.len(),
            i <= n,
            out.len() == i,
            forall|k: int| 0 <= k < i ==> out@[k] == bytes@[n - 1 - k],
        decreases n - i,
    {
        out.push(bytes[n - 1 - i]);
        i = i + 1;
    }
    proof {
        assert(out@ =~= bytes@.reverse());
    }
    out
}

impl ByteOrder {
    /// The byte order of this machine: the order in which it reads the probe
    /// bytes, see [`ByteOrder::from_probe`]. Which of the two that is differs
    /// from machine to machine.
    pub fn native() -> ByteOrder {
        ByteOrder::from_probe(native_probe())
    }

    /// The byte order of a machine on which the bytes 1 and 0, read as a
    /// 16-bit integer, give `value`: least significant byte first where that
    /// is 1, most significant byte first otherwise.
    pub fn from_probe(value: u16) -> (order: ByteOrder)
        ensures
            order == probed_order(value),
    {
        if value == 1 {
            ByteOrder::Little
        } else {
            ByteOrder::Big
        }
    }

    /// Writes a payload length as eight bytes.
    pub fn encode_length(self, value: u64) -> (bytes: Vec<u8>)
        ensures
            bytes@ == length_bytes(self, value),
            bytes.len() == LENGTH_LEN,
    {
        proof {
            lemma_length_roundtrip(self, value);
        }
        let le = u64_to_le_bytes(value);
        match self {
            ByteOrder::Little => le,
            ByteOrder::Big => reversed(le.as_slice()),
        }
    }

    /// Reads a payload length from eight bytes.
    pub fn decode_length(self, bytes: &[u8; 8]) -> (value: u64)
        ensures
            value == length_value(self, bytes@),
    {
        match self {
            ByteOrder::Little => u64_from_le_bytes(bytes.as_slice()),
            ByteOrder::Big => {
                let le = reversed(bytes.as_slice());
                u64_from_le_bytes(le.as_slice())
            },
        }
    }
}

} // verus!
