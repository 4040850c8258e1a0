//! The untagged value slot used for arguments and results.
//!
//! In contracts, `x as u64`, `b as i32` and the like are Verus's casts:
//! the result is the low bits of `x` in two's complement, so a signed 32-bit
//! integer is sign-extended when written and the low 32 bits are kept when it
//! is read back.
use vstd::prelude::*;

verus! {

/// A value as the engine passes it: 64 bits whose meaning is fixed by the
/// signature of the function it is handed to or returned from, not by the
/// value itself.
#[derive(Clone, Copy, Debug, PartialEq, Eq, Structural)]
pub struct Value {
    pub bits: u64,
}

impl View for Value {
    type V = u64;

    open spec fn view(&self) -> u64 {
        self.bits
    }
}

impl Value {
    /// A value holding exactly the given bit pattern.
    pub fn from_bits(bits: u64) -> (r: Value)
        ensures
            r@ == bits,
    {
        Value { bits }
    }

    /// The bit pattern of the value.
    pub fn to_bits(&self) -> (r: u64)
        ensures
            r == self@,
    {
        self.bits
    }

    /// Stores a signed 32-bit integer, sign-extended to 64 bits.
    pub fn from_i32(v: i32) -> (r: Value)
        ensures
            r@ == v as u64,
    {
        Value { bits: v as u64 }
    }

    /// Stores an unsigned 32-bit integer, zero-extended to 64 bits.
    pub fn from_u32(v: u32) -> (r: Value)
        ensures
            r@ == v as u64,
            r@ < 0x1_0000_0000,
    {
        Value { bits: v as u64 }
    }

    /// Stores a signed 64-bit integer in two's complement.
    pub fn from_i64(v: i64) -> (r: Value)
        ensures
            r@ == v as u64,
    {
        Value { bits: v as u64 }
    }

    /// Stores an unsigned 64-bit integer as it is.
    pub fn from_u64(v: u64) -> (r: Value)
        ensures
            r@ == v,
    {
        Value { bits: v }
    }

    /// Reads the low 32 bits as a signed integer; higher bits are dropped.
    pub fn as_i32(&self) -> (r: i32)
        ensures
            r == self@ as i32,
    {
        self.bits as i32
    }

    /// Reads the low 32 bits as an unsigned integer; higher bits are dropped.
    pub fn as_u32(&self) -> (r: u32)
        ensures
            r == self@ as u32,
            r == self@ % 0x1_0000_0000,
    {
        let r = self.bits as u32;
        let b = self.bits;
        assert(b as u32 == b % 0x1_0000_0000) by (bit_vector);
        r
    }

    /// Reads all 64 bits as a signed integer.
    pub fn as_i64(&self) -> (r: i64)
        ensures
            r == self@ as i64,
    {
        self.bits as i64
    }

    /// Reads all 64 bits as an unsigned integer.
    pub fn as_u64(&self) -> (r: u64)
        ensures
            r == self@,
    {
        self.bits
    }
}

/// Every integer written through a constructor reads back unchanged through
/// the accessor of the same type, and a 32-bit integer written through the
/// 64-bit constructor reads back as its low 32 bits.
pub proof fn lemma_integer_round_trip(a: i32, b: u32, c: i64, d: u64)
    ensures
        (a as u64) as i32 == a,
        (b as u64) as u32 == b,
        (c as u64) as i64 == c,
        (a as i64) as u64 == a as u64,
        ((a as i64) as u64) as i32 == a,
{
    assert((a as u64) as i32 == a) by (bit_vector);
    assert((b as u64) as u32 == b) by (bit_vector);
    assert((c as u64) as i64 == c) by (bit_vector);
    assert((a as i64) as u64 == a as u64) by (bit_vector);
    assert(((a as i64) as u64) as i32 == a) by (bit_vector);
}

impl From<i32> for Value {
    fn from(v: i32) -> (r: Value) {
        Value::from_i32(v)
    }
}

impl vstd::std_specs::convert::FromSpecImpl<i32> for Value {
    open spec fn obeys_from_spec() -> bool {
        true
    }

    open spec fn from_spec(v: i32) -> Value {
        Value { bits: v as u64 }
    }
}

impl From<u32> for Value {
    fn from(v: u32) -> (r: Value) {
        Value::from_u32(v)
    }
}

impl vstd::std_specs::convert::FromSpecImpl<u32> for Value {
    open spec fn obeys_from_spec() -> bool {
        true
    }

    open spec fn from_spec(v: u32) -> Value {
        Value { bits: v as u64 }
    }
}

impl From<i64> for Value {
    fn from(v: i64) -> (r: Value) {
        Value::from_i64(v)
    }
}

impl vstd::std_specs::convert::FromSpecImpl<i64> for Value {
    open spec fn obeys_from_spec() -> bool {
        true
    }

    open spec fn from_spec(v: i64) -> Value {
        Value { bits: v as u64 }
    }
}

impl From<u64> for Value {
    fn from(v: u64) -> (r: Value) {
        Value::from_u64(v)
    }
}

impl vstd::std_specs::convert::FromSpecImpl<u64> for Value {
    open spec fn obeys_from_spec() -> bool {
        true
    }

    open spec fn from_spec(v: u64) -> Value {
        Value { bits: v }
    }
}

} // verus!
