//! Metric kinds, identifiers, and the widened values that cross the command channel.

use vstd::prelude::*;
use crate::text::{decimal, signed_decimal, i64_text, u64_text};

verus! {

/// The identifier of a registered metric: its index in the writer's metric list.
pub type MetricId = usize;

/// The identifier that stands for "no metric": a registration that could not
/// complete yields it, and the writer ignores every update that carries it.
pub const INVALID_ID: MetricId = usize::MAX;

/// The declared type of a metric: width, signedness and class.
#[derive(Debug, Copy, Clone, Eq, PartialEq, Structural)]
pub enum MetricKind {
    Int8,
    Int16,
    Int32,
    Int64,
    Uint8,
    Uint16,
    Uint32,
    Uint64,
    Float32,
    Float64,
}

impl MetricKind {
    /// Whether the kind is one of the two floating-point kinds.
    pub open spec fn spec_is_float(self) -> bool {
        self == MetricKind::Float32 || self == MetricKind::Float64
    }

    /// Whether the kind is one of the two floating-point kinds.
    #[verifier::when_used_as_spec(spec_is_float)]
    pub fn is_float(self) -> (r: bool)
        ensures
            r == self.spec_is_float(),
    {
        match self {
            MetricKind::Float32 | MetricKind::Float64 => true,
            _ => false,
        }
    }
}

/// A sample in one of the three representations that cross the channel. A
/// floating-point sample is carried as its IEEE-754 double bit pattern together
/// with its decimal text, both produced where the sample was taken.
#[derive(Debug)]
pub enum Value {
    Int64(i64),
    Uint64(u64),
    Float64 { bits: u64, text: String },
}

impl Value {
    /// The 64-bit word of the sample: the two's complement of a signed
    /// integer, an unsigned integer itself, the bit pattern of a float.
    pub open spec fn word(self) -> u64 {
        match self {
            Value::Int64(v) => v as u64,
            Value::Uint64(v) => v,
            Value::Float64 { bits, .. } => bits,
        }
    }

    /// The canonical text of the sample: base-10 digits for an integer, the
    /// carried decimal text for a float.
    pub open spec fn canonical_text(self) -> Seq<char> {
        match self {
            Value::Int64(v) => signed_decimal(v as int),
            Value::Uint64(v) => decimal(v as nat),
            Value::Float64 { text, .. } => text@,
        }
    }

    /// Whether the sample is a floating-point one.
    pub open spec fn spec_is_float(&self) -> bool {
        self is Float64
    }

    /// Sign-extends an 8-bit signed sample.
    pub fn from_i8(v: i8) -> (r: Value)
        ensures
            r == Value::Int64(v as i64),
            r->Int64_0 as int == v as int,
    {
        Value::Int64(v as i64)
    }

    /// Sign-extends a 16-bit signed sample.
    pub fn from_i16(v: i16) -> (r: Value)
        ensures
            r == Value::Int64(v as i64),
            r->Int64_0 as int == v as int,
    {
        Value::Int64(v as i64)
    }

    /// Sign-extends a 32-bit signed sample.
    pub fn from_i32(v: i32) -> (r: Value)
        ensures
            r == Value::Int64(v as i64),
            r->Int64_0 as int == v as int,
    {
        Value::Int64(v as i64)
    }

    /// Zero-extends an 8-bit unsigned sample.
    pub fn from_u8(v: u8) -> (r: Value)
        ensures
            r == Value::Uint64(v as u64),
            r->Uint64_0 as int == v as int,
    {
        Value::Uint64(v as u64)
    }

    /// Zero-extends a 16-bit unsigned sample.
    pub fn from_u16(v: u16) -> (r: Value)
        ensures
            r == Value::Uint64(v as u64),
            r->Uint64_0 as int == v as int,
    {
        Value::Uint64(v as u64)
    }

    /// Zero-extends a 32-bit unsigned sample.
    pub fn from_u32(v: u32) -> (r: Value)
        ensures
            r == Value::Uint64(v as u64),
            r->Uint64_0 as int == v as int,
    {
        Value::Uint64(v as u64)
    }

    /// Whether the sample is a floating-point one.
    #[verifier::when_used_as_spec(spec_is_float)]
    pub fn is_float(&self) -> (r: bool)
        ensures
            r == self.spec_is_float(),
    {
        match self {
            Value::Float64 { .. } => true,
            _ => false,
        }
    }

    /// The canonical text of the sample.
    pub fn to_text(&self) -> (r: String)
        ensures
            r@ == self.canonical_text(),
    {
        match self {
            Value::Int64(v) => i64_text(*v),
            Value::Uint64(v) => u64_text(*v),
            Value::Float64 { text, .. } => text.clone(),
        }
    }

    /// The 64-bit word of the sample.
    pub fn to_word(&self) -> (r: u64)
        ensures
            r == self.word(),
    {
        match self {
            Value::Int64(v) => {
                let w: u64 = #[verifier::truncate] (*v as u64);
                w
            },
            Value::Uint64(v) => *v,
            Value::Float64 { bits, .. } => *bits,
        }
    }
}

impl Clone for Value {
    fn clone(&self) -> (r: Self)
        ensures
            r == *self,
    {
        match self {
            Value::Int64(v) => Value::Int64(*v),
            Value::Uint64(v) => Value::Uint64(*v),
            Value::Float64 { bits, text } => Value::Float64 { bits: *bits, text: text.clone() },
        }
    }
}

} // verus!
