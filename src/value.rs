//! A closed set of scalar values with exact, total equality.
//!
//! Floating-point members are held as their IEEE-754 bit patterns. Two of
//! them are equal when both are NaN, when both are zeros of either sign, or
//! when their bit patterns agree: the equality of a total-order float wrapper.

use vstd::prelude::*;

verus! {

/// A raster sample of one of the supported scalar types.
#[derive(Clone, Copy, Debug)]
pub enum Value {
    Int16(i16),
    Uint8(u8),
    Uint16(u16),
    Int32(i32),
    Uint32(u32),
    /// Bit pattern of a single-precision float.
    Float32(u32),
    /// Bit pattern of a double-precision float.
    Float64(u64),
}

pub open spec fn f32_bits_is_nan(b: u32) -> bool {
    (b & 0x7f80_0000u32) == 0x7f80_0000u32 && (b & 0x007f_ffffu32) != 0u32
}

pub open spec fn f32_bits_is_zero(b: u32) -> bool {
    (b & 0x7fff_ffffu32) == 0u32
}

pub open spec fn f64_bits_is_nan(b: u64) -> bool {
    (b & 0x7ff0_0000_0000_0000u64) == 0x7ff0_0000_0000_0000u64 && (b & 0x000f_ffff_ffff_ffffu64)
        != 0u64
}

pub open spec fn f64_bits_is_zero(b: u64) -> bool {
    (b & 0x7fff_ffff_ffff_ffffu64) == 0u64
}

/// Total equality of two single-precision bit patterns.
pub open spec fn f32_bits_same(a: u32, b: u32) -> bool {
    if f32_bits_is_nan(a) {
        f32_bits_is_nan(b)
    } else if f32_bits_is_zero(a) {
        f32_bits_is_zero(b)
    } else {
        a == b
    }
}

/// Total equality of two double-precision bit patterns.
pub open spec fn f64_bits_same(a: u64, b: u64) -> bool {
    if f64_bits_is_nan(a) {
        f64_bits_is_nan(b)
    } else if f64_bits_is_zero(a) {
        f64_bits_is_zero(b)
    } else {
        a == b
    }
}

/// The two values hold the same scalar type.
pub open spec fn same_variant(a: Value, b: Value) -> bool {
    match (a, b) {
        (Value::Int16(_), Value::Int16(_)) => true,
        (Value::Uint8(_), Value::Uint8(_)) => true,
        (Value::Uint16(_), Value::Uint16(_)) => true,
        (Value::Int32(_), Value::Int32(_)) => true,
        (Value::Uint32(_), Value::Uint32(_)) => true,
        (Value::Float32(_), Value::Float32(_)) => true,
        (Value::Float64(_), Value::Float64(_)) => true,
        _ => false,
    }
}

/// Two values are equal when they have the same variant and equal payloads.
pub open spec fn value_eq(a: Value, b: Value) -> bool {
    match (a, b) {
        (Value::Int16(x), Value::Int16(y)) => x == y,
        (Value::Uint8(x), Value::Uint8(y)) => x == y,
        (Value::Uint16(x), Value::Uint16(y)) => x == y,
        (Value::Int32(x), Value::Int32(y)) => x == y,
        (Value::Uint32(x), Value::Uint32(y)) => x == y,
        (Value::Float32(x), Value::Float32(y)) => f32_bits_same(x, y),
        (Value::Float64(x), Value::Float64(y)) => f64_bits_same(x, y),
        _ => false,
    }
}

fn f32_same(a: u32, b: u32) -> (r: bool)
    ensures
        r == f32_bits_same(a, b),
{
    let a_nan = (a & 0x7f80_0000u32) == 0x7f80_0000u32 && (a & 0x007f_ffffu32) != 0u32;
    let b_nan = (b & 0x7f80_0000u32) == 0x7f80_0000u32 && (b & 0x007f_ffffu32) != 0u32;
    if a_nan {
        b_nan
    } else if (a & 0x7fff_ffffu32) == 0u32 {
        (b & 0x7fff_ffffu32) == 0u32
    } else {
        a == b
    }
}

fn f64_same(a: u64, b: u64) -> (r: bool)
    ensures
        r == f64_bits_same(a, b),
{
    let a_nan = (a & 0x7ff0_0000_0000_0000u64) == 0x7ff0_0000_0000_0000u64 && (a
        & 0x000f_ffff_ffff_ffffu64) != 0u64;
    let b_nan = (b & 0x7ff0_0000_0000_0000u64) == 0x7ff0_0000_0000_0000u64 && (b
        & 0x000f_ffff_ffff_ffffu64) != 0u64;
    if a_nan {
        b_nan
    } else if (a & 0x7fff_ffff_ffff_ffffu64) == 0u64 {
        (b & 0x7fff_ffff_ffff_ffffu64) == 0u64
    } else {
        a == b
    }
}

impl PartialEq for Value {
    fn eq(&self, other: &Value) -> (r: bool) {
        match (*self, *other) {
            (Value::Int16(x), Value::Int16(y)) => x == y,
            (Value::Uint8(x), Value::Uint8(y)) => x == y,
            (Value::Uint16(x), Value::Uint16(y)) => x == y,
            (Value::Int32(x), Value::Int32(y)) => x == y,
            (Value::Uint32(x), Value::Uint32(y)) => x == y,
            (Value::Float32(x), Value::Float32(y)) => f32_same(x, y),
            (Value::Float64(x), Value::Float64(y)) => f64_same(x, y),
            _ => false,
        }
    }
}

impl vstd::std_specs::cmp::PartialEqSpecImpl for Value {
    open spec fn obeys_eq_spec() -> bool {
        true
    }

    open spec fn eq_spec(&self, other: &Value) -> bool {
        value_eq(*self, *other)
    }
}

impl Eq for Value {

}

/// Relies on std's `Hash` for `u64`: it feeds the integer to the hasher.
pub assume_specification<H: core::hash::Hasher>[ <u64 as core::hash::Hash>::hash::<H> ](
    data: &u64,
    state: &mut H,
);

/// The key that `hash` feeds to a hasher: the variant's position and the
/// payload, with every NaN and both zeros of a float type folded together.
pub open spec fn hash_key_of(v: Value) -> (u64, u64) {
    match v {
        Value::Int16(x) => (0, x as u16 as u64),
        Value::Uint8(x) => (1, x as u64),
        Value::Uint16(x) => (2, x as u64),
        Value::Int32(x) => (3, x as u32 as u64),
        Value::Uint32(x) => (4, x as u64),
        Value::Float32(b) => (5, if f32_bits_is_nan(b) {
            0x7fc0_0000u64
        } else if f32_bits_is_zero(b) {
            0
        } else {
            b as u64
        }),
        Value::Float64(b) => (6, if f64_bits_is_nan(b) {
            0x7ff8_0000_0000_0000u64
        } else if f64_bits_is_zero(b) {
            0
        } else {
            b
        }),
    }
}

/// Equal values have equal hash keys, so `Value` can key a hash map.
pub proof fn lemma_equal_values_hash_alike(a: Value, b: Value)
    requires
        value_eq(a, b),
    ensures
        hash_key_of(a) == hash_key_of(b),
{
    match (a, b) {
        (Value::Float32(x), Value::Float32(y)) => {
            assert((y & 0x7fff_ffffu32) == 0u32 ==> (y & 0x7f80_0000u32) != 0x7f80_0000u32)
                by (bit_vector);
        },
        (Value::Float64(x), Value::Float64(y)) => {
            assert((y & 0x7fff_ffff_ffff_ffffu64) == 0u64 ==> (y & 0x7ff0_0000_0000_0000u64)
                != 0x7ff0_0000_0000_0000u64) by (bit_vector);
        },
        _ => {},
    }
}

impl core::hash::Hash for Value {
    fn hash<H: core::hash::Hasher>(&self, state: &mut H) {
        let (tag, payload) = self.hash_key();
        tag.hash(state);
        payload.hash(state);
    }
}

impl Value {
    /// The key that equal values share; see `hash_key_of`.
    pub fn hash_key(&self) -> (r: (u64, u64))
        ensures
            r == hash_key_of(*self),
    {
        match *self {
            Value::Int16(x) => (0, x as u16 as u64),
            Value::Uint8(x) => (1, x as u64),
            Value::Uint16(x) => (2, x as u64),
            Value::Int32(x) => (3, x as u32 as u64),
            Value::Uint32(x) => (4, x as u64),
            Value::Float32(b) => {
                let nan = (b & 0x7f80_0000u32) == 0x7f80_0000u32 && (b & 0x007f_ffffu32) != 0u32;
                if nan {
                    (5, 0x7fc0_0000u64)
                } else if (b & 0x7fff_ffffu32) == 0u32 {
                    (5, 0)
                } else {
                    (5, b as u64)
                }
            },
            Value::Float64(b) => {
                let nan = (b & 0x7ff0_0000_0000_0000u64) == 0x7ff0_0000_0000_0000u64 && (b
                    & 0x000f_ffff_ffff_ffffu64) != 0u64;
                if nan {
                    (6, 0x7ff8_0000_0000_0000u64)
                } else if (b & 0x7fff_ffff_ffff_ffffu64) == 0u64 {
                    (6, 0)
                } else {
                    (6, b)
                }
            },
        }
    }

    /// The bit pattern of a single-precision payload, if this is one.
    pub fn float32_bits(&self) -> (r: Option<u32>)
        ensures
            r == (match *self {
                Value::Float32(b) => Some(b),
                _ => None,
            }),
    {
        match *self {
            Value::Float32(b) => Some(b),
            _ => None,
        }
    }

    /// The bit pattern of a double-precision payload, if this is one.
    pub fn float64_bits(&self) -> (r: Option<u64>)
        ensures
            r == (match *self {
                Value::Float64(b) => Some(b),
                _ => None,
            }),
    {
        match *self {
            Value::Float64(b) => Some(b),
            _ => None,
        }
    }
}

/// Conversion of a primitive scalar into its matching `Value` variant.
pub trait ToValue {
    /// The variant that `to_value` produces.
    spec fn as_value(&self) -> Value;

    fn to_value(&self) -> (r: Value)
        ensures
            r == self.as_value(),
    ;
}

/// Extraction of a primitive scalar from a `Value`: present only when the
/// stored variant is exactly the one of `T`.
pub trait FromValue<T> {
    /// What `from_value` extracts.
    spec fn extracted(&self) -> Option<T>;

    fn from_value(&self) -> (r: Option<T>)
        ensures
            r == self.extracted(),
    ;
}

impl ToValue for u8 {
    open spec fn as_value(&self) -> Value {
        Value::Uint8(*self)
    }

    fn to_value(&self) -> (r: Value) {
        Value::Uint8(*self)
    }
}

impl ToValue for u16 {
    open spec fn as_value(&self) -> Value {
        Value::Uint16(*self)
    }

    fn to_value(&self) -> (r: Value) {
        Value::Uint16(*self)
    }
}

impl ToValue for u32 {
    open spec fn as_value(&self) -> Value {
        Value::Uint32(*self)
    }

    fn to_value(&self) -> (r: Value) {
        Value::Uint32(*self)
    }
}

impl ToValue for i16 {
    open spec fn as_value(&self) -> Value {
        Value::Int16(*self)
    }

    fn to_value(&self) -> (r: Value) {
        Value::Int16(*self)
    }
}

impl ToValue for i32 {
    open spec fn as_value(&self) -> Value {
        Value::Int32(*self)
    }

    fn to_value(&self) -> (r: Value) {
        Value::Int32(*self)
    }
}

impl FromValue<u8> for Value {
    open spec fn extracted(&self) -> Option<u8> {
        match *self {
            Value::Uint8(v) => Some(v),
            _ => None,
        }
    }

    fn from_value(&self) -> (r: Option<u8>) {
        match *self {
            Value::Uint8(v) => Some(v),
            _ => None,
        }
    }
}

impl FromValue<u16> for Value {
    open spec fn extracted(&self) -> Option<u16> {
        match *self {
            Value::Uint16(v) => Some(v),
            _ => None,
        }
    }

    fn from_value(&self) -> (r: Option<u16>) {
        match *self {
            Value::Uint16(v) => Some(v),
            _ => None,
        }
    }
}

impl FromValue<u32> for Value {
    open spec fn extracted(&self) -> Option<u32> {
        match *self {
            Value::Uint32(v) => Some(v),
            _ => None,
        }
    }

    fn from_value(&self) -> (r: Option<u32>) {
        match *self {
            Value::Uint32(v) => Some(v),
            _ => None,
        }
    }
}

impl FromValue<i16> for Value {
    open spec fn extracted(&self) -> Option<i16> {
        match *self {
            Value::Int16(v) => Some(v),
            _ => None,
        }
    }

    fn from_value(&self) -> (r: Option<i16>) {
        match *self {
            Value::Int16(v) => Some(v),
            _ => None,
        }
    }
}

impl FromValue<i32> for Value {
    open spec fn extracted(&self) -> Option<i32> {
        match *self {
            Value::Int32(v) => Some(v),
            _ => None,
        }
    }

    fn from_value(&self) -> (r: Option<i32>) {
        match *self {
            Value::Int32(v) => Some(v),
            _ => None,
        }
    }
}

/// Converting a scalar into a `Value` and extracting the same type gives the
/// scalar back exactly; extracting any other type gives nothing.
pub proof fn lemma_value_round_trip()
    ensures
        forall|x: u8| (<Value as FromValue<u8>>::extracted(&#[trigger] x.as_value())) == Some(x),
        forall|x: u8| (<Value as FromValue<u16>>::extracted(&#[trigger] x.as_value())) is None,
        forall|x: u8| (<Value as FromValue<u32>>::extracted(&#[trigger] x.as_value())) is None,
        forall|x: u8| (<Value as FromValue<i16>>::extracted(&#[trigger] x.as_value())) is None,
        forall|x: u8| (<Value as FromValue<i32>>::extracted(&#[trigger] x.as_value())) is None,
        forall|x: u16| (<Value as FromValue<u8>>::extracted(&#[trigger] x.as_value())) is None,
        forall|x: u16| (<Value as FromValue<u16>>::extracted(&#[trigger] x.as_value())) == Some(x),
        forall|x: u16| (<Value as FromValue<u32>>::extracted(&#[trigger] x.as_value())) is None,
        forall|x: u16| (<Value as FromValue<i16>>::extracted(&#[trigger] x.as_value())) is None,
        forall|x: u16| (<Value as FromValue<i32>>::extracted(&#[trigger] x.as_value())) is None,
        forall|x: u32| (<Value as FromValue<u8>>::extracted(&#[trigger] x.as_value())) is None,
        forall|x: u32| (<Value as FromValue<u16>>::extracted(&#[trigger] x.as_value())) is None,
        forall|x: u32| (<Value as FromValue<u32>>::extracted(&#[trigger] x.as_value())) == Some(x),
        forall|x: u32| (<Value as FromValue<i16>>::extracted(&#[trigger] x.as_value())) is None,
        forall|x: u32| (<Value as FromValue<i32>>::extracted(&#[trigger] x.as_value())) is None,
        forall|x: i16| (<Value as FromValue<u8>>::extracted(&#[trigger] x.as_value())) is None,
        forall|x: i16| (<Value as FromValue<u16>>::extracted(&#[trigger] x.as_value())) is None,
        forall|x: i16| (<Value as FromValue<u32>>::extracted(&#[trigger] x.as_value())) is None,
        forall|x: i16| (<Value as FromValue<i16>>::extracted(&#[trigger] x.as_value())) == Some(x),
        forall|x: i16| (<Value as FromValue<i32>>::extracted(&#[trigger] x.as_value())) is None,
        forall|x: i32| (<Value as FromValue<u8>>::extracted(&#[trigger] x.as_value())) is None,
        forall|x: i32| (<Value as FromValue<u16>>::extracted(&#[trigger] x.as_value())) is None,
        forall|x: i32| (<Value as FromValue<u32>>::extracted(&#[trigger] x.as_value())) is None,
        forall|x: i32| (<Value as FromValue<i16>>::extracted(&#[trigger] x.as_value())) is None,
        forall|x: i32| (<Value as FromValue<i32>>::extracted(&#[trigger] x.as_value())) == Some(x),
        forall|b: u32| (<Value as FromValue<u8>>::extracted(&#[trigger] Value::Float32(b))) is None,
        forall|b: u64| (<Value as FromValue<u8>>::extracted(&#[trigger] Value::Float64(b))) is None,
        forall|b: u32| (<Value as FromValue<u16>>::extracted(&#[trigger] Value::Float32(b))) is None,
        forall|b: u64| (<Value as FromValue<u16>>::extracted(&#[trigger] Value::Float64(b))) is None,
        forall|b: u32| (<Value as FromValue<u32>>::extracted(&#[trigger] Value::Float32(b))) is None,
        forall|b: u64| (<Value as FromValue<u32>>::extracted(&#[trigger] Value::Float64(b))) is None,
        forall|b: u32| (<Value as FromValue<i16>>::extracted(&#[trigger] Value::Float32(b))) is None,
        forall|b: u64| (<Value as FromValue<i16>>::extracted(&#[trigger] Value::Float64(b))) is None,
        forall|b: u32| (<Value as FromValue<i32>>::extracted(&#[trigger] Value::Float32(b))) is None,
        forall|b: u64| (<Value as FromValue<i32>>::extracted(&#[trigger] Value::Float64(b))) is None,
{
}

} // verus!
