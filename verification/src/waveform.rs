//! The waveform backend: how a metric is declared in a binary trace with a
//! clock of one nanosecond, and how a sample is encoded for it.

use vstd::prelude::*;
use crate::kind::{MetricKind, Value};

verus! {

/// The variable type under which a metric is declared in the trace.
#[derive(Debug, Copy, Clone, Eq, PartialEq, Structural)]
pub enum VarType {
    /// An integer of one byte.
    Byte,
    /// A short integer.
    ShortInt,
    /// An integer.
    Int,
    /// A long integer.
    LongInt,
    /// A floating-point number.
    Real,
}

/// The declared variable type of each kind.
pub open spec fn type_of(kind: MetricKind) -> VarType {
    match kind {
        MetricKind::Int8 | MetricKind::Uint8 => VarType::Byte,
        MetricKind::Int16 | MetricKind::Uint16 => VarType::ShortInt,
        MetricKind::Int32 | MetricKind::Uint32 => VarType::Int,
        MetricKind::Int64 | MetricKind::Uint64 => VarType::LongInt,
        MetricKind::Float32 | MetricKind::Float64 => VarType::Real,
    }
}

/// The declared width of each kind in bytes: one for the 8-bit kinds, eight
/// for every other.
pub open spec fn width_of(kind: MetricKind) -> nat {
    match kind {
        MetricKind::Int8 | MetricKind::Uint8 => 1,
        _ => 8,
    }
}

/// The eight bytes of a word, least significant first.
pub open spec fn le_bytes(word: u64) -> Seq<u8> {
    seq![
        (word % 0x100) as u8,
        (word / 0x100 % 0x100) as u8,
        (word / 0x1_0000 % 0x100) as u8,
        (word / 0x100_0000 % 0x100) as u8,
        (word / 0x1_0000_0000 % 0x100) as u8,
        (word / 0x100_0000_0000 % 0x100) as u8,
        (word / 0x1_0000_0000_0000 % 0x100) as u8,
        (word / 0x100_0000_0000_0000 % 0x100) as u8,
    ]
}

/// The eight bytes of a word, most significant first.
pub open spec fn be_bytes(word: u64) -> Seq<u8> {
    le_bytes(word).reverse()
}

/// Whether `bytes` is the word in one of the two byte orders a machine can have.
pub open spec fn is_native(word: u64, bytes: Seq<u8>) -> bool {
    bytes == le_bytes(word) || bytes == be_bytes(word)
}

/// Whether the sample is of the class that the kind declares: a float for a
/// floating-point kind, an integer for an integer kind.
pub open spec fn classes_agree(kind: MetricKind, value: Value) -> bool {
    kind.spec_is_float() == value.spec_is_float()
}

/// The payload of a value change, given the word of the sample in the byte
/// order of the machine: for a sample of the declared class, its low byte
/// where the kind is one byte wide and the whole word where it is eight; for
/// a sample of the other class, zeros of the declared width.
pub open spec fn payload(kind: MetricKind, value: Value, native: Seq<u8>) -> Seq<u8> {
    if !classes_agree(kind, value) {
        Seq::new(width_of(kind), |i: int| 0u8)
    } else if width_of(kind) == 1 {
        seq![(value.word() % 0x100) as u8]
    } else {
        native
    }
}

/// Whether `bytes` is the payload of the sample in one of the two byte orders.
pub open spec fn is_payload(kind: MetricKind, value: Value, bytes: Seq<u8>) -> bool {
    bytes == payload(kind, value, le_bytes(value.word())) || bytes == payload(
        kind,
        value,
        be_bytes(value.word()),
    )
}

/// Calls `u64::to_ne_bytes`: the eight bytes of the word as this machine
/// lays them out in memory, which is one of the two byte orders.
#[verifier::external_body]
fn native_bytes(word: u64) -> (bytes: Vec<u8>)
    ensures
        is_native(word, bytes@),
{
    word.to_ne_bytes().to_vec()
}

/// The variable type under which a metric of this kind is declared.
pub fn metric_type(kind: MetricKind) -> (ty: VarType)
    ensures
        ty == type_of(kind),
{
    match kind {
        MetricKind::Int8 => VarType::Byte,
        MetricKind::Int16 => VarType::ShortInt,
        MetricKind::Int32 => VarType::Int,
        MetricKind::Int64 => VarType::LongInt,
        MetricKind::Uint8 => VarType::Byte,
        MetricKind::Uint16 => VarType::ShortInt,
        MetricKind::Uint32 => VarType::Int,
        MetricKind::Uint64 => VarType::LongInt,
        MetricKind::Float32 => VarType::Real,
        MetricKind::Float64 => VarType::Real,
    }
}

/// The width in bytes with which a metric of this kind is declared.
pub fn metric_size(kind: MetricKind) -> (width: u32)
    ensures
        width == width_of(kind),
{
    match kind {
        MetricKind::Int8 => 1,
        MetricKind::Int16 => 8,
        MetricKind::Int32 => 8,
        MetricKind::Int64 => 8,
        MetricKind::Uint8 => 1,
        MetricKind::Uint16 => 8,
        MetricKind::Uint32 => 8,
        MetricKind::Uint64 => 8,
        MetricKind::Float32 => 8,
        MetricKind::Float64 => 8,
    }
}

/// The payload of a value change for a sample whose word, in the byte order
/// of the machine, is `native`.
pub fn encode(kind: MetricKind, value: &Value, native: Vec<u8>) -> (bytes: Vec<u8>)
    ensures
        bytes@ == payload(kind, *value, native@),
{
    if kind.is_float() != value.is_float() {
        let mut zeros: Vec<u8> = Vec::new();
        let width: u32 = metric_size(kind);
        let mut i: u32 = 0;
        while i < width
            invariant
                i <= width,
                zeros@ == Seq::new(i as nat, |k: int| 0u8),
            decreases width - i,
        {
            zeros.push(0u8);
            i = i + 1;
            assert(zeros@ =~= Seq::new(i as nat, |k: int| 0u8));
        }
        zeros
    } else if metric_size(kind) == 1 {
        let low: u8 = (value.to_word() % 0x100) as u8;
        let mut one: Vec<u8> = Vec::new();
        one.push(low);
        assert(one@ =~= seq![(value.word() % 0x100) as u8]);
        one
    } else {
        native
    }
}

/// The payload of a value change for a sample of a metric of this kind, of
/// the declared width.
pub fn metric_value(kind: MetricKind, value: &Value) -> (bytes: Vec<u8>)
    ensures
        is_payload(kind, *value, bytes@),
        bytes@.len() == width_of(kind),
{
    let native = native_bytes(value.to_word());
    proof {
        lemma_payload_width(kind, *value, native@);
    }
    encode(kind, value, native)
}

/// Every payload has the width with which its metric was declared.
pub proof fn lemma_payload_width(kind: MetricKind, value: Value, native: Seq<u8>)
    requires
        is_native(value.word(), native),
    ensures
        payload(kind, value, native).len() == width_of(kind),
{
}

} // verus!
