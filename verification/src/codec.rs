//! Register/unit codecs.
//!
//! Devices expose 16-bit holding registers. A physical quantity is carried
//! here as a fixed-point integer count of micro-units (millionths of the
//! device's engineering unit: micro-degrees, micro-milliamps, micro-volts),
//! so that scaling, rounding and round-trip behaviour are exact and
//! provable. A device's codec is its resolution (micro-units per register
//! count) together with the largest raw count it accepts.

use vstd::arithmetic::div_mod::{
    lemma_div_is_ordered, lemma_div_multiples_vanish, lemma_div_multiples_vanish_fancy,
    lemma_fundamental_div_mod,
};
use vstd::arithmetic::mul::lemma_mul_upper_bound;
use vstd::prelude::*;

use crate::errors::CodecError;

verus! {

/// The signed 32-bit quantity that a register pair `[high, low]` denotes:
/// `(high << 16) | low`, read as two's complement.
pub open spec fn word_pair_value(high: u16, low: u16) -> int {
    let unsigned = (high as int) * 0x1_0000 + (low as int);
    if unsigned < 0x8000_0000 {
        unsigned
    } else {
        unsigned - 0x1_0000_0000
    }
}

/// Combine two 16-bit registers into a signed 32-bit value, high word first.
pub fn registers_to_i32(registers: &[u16], offset: usize) -> (value: i32)
    requires
        offset + 1 < registers@.len(),
    ensures
        value == word_pair_value(registers@[offset as int], registers@[offset as int + 1]),
{
    let high: u32 = registers[offset] as u32;
    let low: u32 = registers[offset + 1] as u32;
    let combined: u32 = high * 0x1_0000 + low;
    if combined >= 0x8000_0000 {
        let distance: u32 = 0xFFFF_FFFF - combined;
        -(distance as i32) - 1
    } else {
        combined as i32
    }
}

/// Largest resolution a codec may declare: one full engineering unit
/// (1_000_000 micro-units) per register count.
pub const MAX_RES_MICRO: u32 = 1_000_000;

/// How one device scales a register count to a physical quantity:
/// one count stands for `res_micro` micro-units, and the device accepts
/// raw counts up to `max_raw`.
#[derive(Clone, Copy, Debug, PartialEq, Eq, Structural)]
pub struct Codec {
    /// Micro-units represented by one raw count (the device's resolution).
    pub res_micro: u32,
    /// Largest raw count the device accepts in a write.
    pub max_raw: u16,
}

impl Codec {
    /// A codec is well formed when its resolution is a positive number of
    /// micro-units no coarser than one full unit per count.
    pub open spec fn valid(self) -> bool {
        1 <= self.res_micro <= MAX_RES_MICRO
    }

    /// The physical quantity, in micro-units, that a raw count denotes.
    pub open spec fn decoded(self, raw: int) -> int {
        raw * self.res_micro
    }

    /// The largest physical quantity, in micro-units, the device can represent.
    pub open spec fn span_micro(self) -> int {
        self.decoded(self.max_raw as int)
    }

    /// The raw count nearest a physical quantity (ties round up).
    pub open spec fn rounded_raw(self, phys_micro: int) -> int {
        (phys_micro + self.res_micro / 2) / (self.res_micro as int)
    }

    /// Decode one register word into micro-units.
    pub fn decode_word(&self, raw: u16) -> (phys_micro: u64)
        requires
            self.valid(),
        ensures
            phys_micro == self.decoded(raw as int),
    {
        proof {
            lemma_mul_upper_bound(raw as int, 0xFFFF, self.res_micro as int, MAX_RES_MICRO as int);
        }
        raw as u64 * self.res_micro as u64
    }

    /// Decode a signed quantity spread across two register words,
    /// high word first, into micro-units.
    pub fn decode_pair(&self, high: u16, low: u16) -> (phys_micro: i64)
        requires
            self.valid(),
        ensures
            phys_micro == self.decoded(word_pair_value(high, low)),
    {
        let words: [u16; 2] = [high, low];
        let wide: i32 = registers_to_i32(&words, 0);
        proof {
            assert(i64::MIN <= wide as int * self.res_micro as int <= i64::MAX)
                by (nonlinear_arith)
                requires
                    i32::MIN <= wide as int <= i32::MAX,
                    1 <= self.res_micro as int <= MAX_RES_MICRO as int,
            ;
        }
        wide as i64 * self.res_micro as i64
    }

    /// Encode a physical quantity, in micro-units, as the nearest raw count.
    /// Fails with `OutOfRange` exactly when that nearest count exceeds what
    /// the device accepts.
    pub fn encode(&self, phys_micro: u64) -> (result: Result<u16, CodecError>)
        requires
            self.valid(),
        ensures
            match result {
                Ok(raw) => raw == self.rounded_raw(phys_micro as int)
                    && self.rounded_raw(phys_micro as int) <= self.max_raw,
                Err(e) => e == CodecError::OutOfRange
                    && self.rounded_raw(phys_micro as int) > self.max_raw,
            },
    {
        let half: u64 = (self.res_micro / 2) as u64;
        match phys_micro.checked_add(half) {
            None => {
                proof {
                    let res = self.res_micro as int;
                    let sum = phys_micro as int + half as int;
                    lemma_div_multiples_vanish(0x1_0000, res);
                    assert(res * 0x1_0000 <= u64::MAX < sum);
                    lemma_div_is_ordered(res * 0x1_0000, sum, res);
                }
                Err(CodecError::OutOfRange)
            },
            Some(sum) => {
                let raw_wide: u64 = sum / self.res_micro as u64;
                if raw_wide > self.max_raw as u64 {
                    Err(CodecError::OutOfRange)
                } else {
                    Ok(raw_wide as u16)
                }
            },
        }
    }
}

/// Every quantity within the device's representable span encodes
/// successfully: its nearest raw count never exceeds `max_raw`.
pub proof fn lemma_representable_encodes(codec: Codec, phys_micro: int)
    requires
        codec.valid(),
        0 <= phys_micro <= codec.span_micro(),
    ensures
        codec.rounded_raw(phys_micro) <= codec.max_raw,
{
    let res = codec.res_micro as int;
    let half = (codec.res_micro / 2) as int;
    let top = codec.max_raw as int;
    assert(codec.span_micro() == top * res);
    lemma_div_is_ordered(phys_micro + half, top * res + half, res);
    lemma_div_multiples_vanish_fancy(top, half, res);
    assert(res * top == top * res) by (nonlinear_arith);
    assert((top * res + half) / res == top);
}

/// Rounding a representable quantity to a raw count and decoding that count
/// reproduces the quantity to within the device's resolution: twice the
/// distance between the two never exceeds `res_micro`.
pub proof fn lemma_encode_decode_round_trip(codec: Codec, phys_micro: int)
    requires
        codec.valid(),
        0 <= phys_micro,
        codec.rounded_raw(phys_micro) <= codec.max_raw,
    ensures
        -(codec.res_micro as int) < 2 * (codec.decoded(codec.rounded_raw(phys_micro)) - phys_micro),
        2 * (codec.decoded(codec.rounded_raw(phys_micro)) - phys_micro) <= codec.res_micro,
{
    let res = codec.res_micro as int;
    let half = codec.res_micro / 2;
    let q = codec.rounded_raw(phys_micro);
    lemma_fundamental_div_mod(phys_micro + half, res);
    let r = (phys_micro + half) % res;
    assert(codec.decoded(q) == phys_micro + half - r);
    assert(0 <= r < res);
    assert(res - 1 <= 2 * (half as int) <= res);
}

} // verus!
