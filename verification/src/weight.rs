//! Blend weights: fractions between zero and one in fixed point.
//!
//! A weight counts sixty-five-thousand-five-hundred-thirty-sixths, so that
//! one half, one quarter and the like are exact. Weights arrive from the
//! network as IEEE 754 single-precision numbers; they are decoded here from
//! the bit pattern alone.

use vstd::prelude::*;

verus! {

/// The fixed-point representation of one.
pub const UNIT: u32 = 65536;

/// The bit pattern of the single-precision number one.
pub const ONE_BITS: u32 = 0x3F80_0000;

/// The bit pattern of the single-precision number negative zero.
pub const NEGATIVE_ZERO_BITS: u32 = 0x8000_0000;

/// The biased exponent of a single-precision bit pattern.
pub open spec fn exponent_of(bits: u32) -> u32 {
    (bits >> 23) & 0xff
}

/// The significand of a normal single-precision bit pattern, with its
/// leading one made explicit.
pub open spec fn significand_of(bits: u32) -> u32 {
    (bits & 0x7f_ffff) | 0x80_0000
}

/// Whether a bit pattern stands for a number between zero and one, both
/// included. Positive patterns are ordered as the numbers they stand for, so
/// these are the patterns up to that of one, and negative zero.
pub open spec fn bits_in_unit_range(bits: u32) -> bool {
    bits <= ONE_BITS || bits == NEGATIVE_ZERO_BITS
}

/// The weight that a bit pattern stands for, rounded down to a multiple of
/// `1 / UNIT`; `None` for a pattern outside the range from zero to one.
///
/// A normal pattern with biased exponent `e` and significand `m` stands for
/// `m * 2^(e - 150)`, which is `m / 2^(134 - e)` units. Patterns whose
/// exponent is under 111, subnormal ones and both zeros among them, stand
/// for less than one unit.
pub open spec fn weight_of_bits(bits: u32) -> Option<int> {
    if !bits_in_unit_range(bits) {
        None
    } else if bits == NEGATIVE_ZERO_BITS || exponent_of(bits) < 111 {
        Some(0)
    } else {
        Some((significand_of(bits) >> ((134 - exponent_of(bits)) as u32)) as int)
    }
}

/// A blend weight between zero and one.
#[derive(Clone, Copy, Debug)]
pub struct Weight {
    raw: u32,
}

impl Weight {
    #[verifier::type_invariant]
    spec fn in_range(self) -> bool {
        self.raw <= UNIT
    }

    /// The weight in units of `1 / UNIT`.
    pub closed spec fn value(self) -> int {
        self.raw as int
    }

    /// The weight zero.
    pub fn zero() -> (w: Weight)
        ensures
            w.value() == 0,
    {
        Weight { raw: 0 }
    }

    /// The weight one.
    pub fn one() -> (w: Weight)
        ensures
            w.value() == UNIT,
    {
        Weight { raw: UNIT }
    }

    /// The weight one half.
    pub fn half() -> (w: Weight)
        ensures
            w.value() == UNIT / 2,
    {
        Weight { raw: UNIT / 2 }
    }

    /// The weight of `raw` units, or `None` where that is more than one.
    pub fn from_raw(raw: u32) -> (w: Option<Weight>)
        ensures
            raw <= UNIT ==> w.is_some() && w.unwrap().value() == raw,
            raw > UNIT ==> w.is_none(),
    {
        if raw <= UNIT {
            Some(Weight { raw })
        } else {
            None
        }
    }

    /// The weight in units of `1 / UNIT`, at most `UNIT`.
    pub fn raw(&self) -> (raw: u32)
        ensures
            raw == self.value(),
            raw <= UNIT,
    {
        proof {
            use_type_invariant(self);
        }
        self.raw
    }

    /// What is left of one: the weight of the other side of a blend.
    pub fn complement(&self) -> (w: Weight)
        ensures
            w.value() == UNIT - self.value(),
    {
        proof {
            use_type_invariant(self);
        }
        Weight { raw: UNIT - self.raw }
    }

    /// Whether two weights are the same fraction.
    pub fn same(&self, other: &Weight) -> (same: bool)
        ensures
            same == (self.value() == other.value()),
    {
        self.raw == other.raw
    }

    /// Decodes a weight from the bit pattern of a single-precision number.
    /// A number below zero or above one, an infinity and a NaN are refused.
    pub fn from_float_bits(bits: u32) -> (w: Option<Weight>)
        ensures
            match weight_of_bits(bits) {
                Some(units) => w.is_some() && w.unwrap().value() == units,
                None => w.is_none(),
            },
    {
        if bits > ONE_BITS && bits != NEGATIVE_ZERO_BITS {
            return None;
        }
        if bits == NEGATIVE_ZERO_BITS {
            return Some(Weight { raw: 0 });
        }
        let exponent: u32 = (bits >> 23) & 0xff;
        if exponent < 111 {
            return Some(Weight { raw: 0 });
        }
        let significand: u32 = (bits & 0x7f_ffff) | 0x80_0000;
        assert(exponent <= 127 && (exponent == 127 ==> significand == 0x80_0000)) by (bit_vector)
            requires
                bits <= 0x3F80_0000u32,
                exponent == (bits >> 23) & 0xff,
                significand == (bits & 0x7f_ffff) | 0x80_0000,
        ;
        let shift: u32 = 134 - exponent;
        let raw: u32 = significand >> shift;
        assert(raw <= 65536) by (bit_vector)
            requires
                raw == significand >> shift,
                7 <= shift <= 23,
                significand == (bits & 0x7f_ffff) | 0x80_0000,
                shift == 7 ==> significand == 0x80_0000,
        ;
        Some(Weight { raw })
    }
}

/// The bit patterns of one, of one half and of both zeros decode to the
/// weights they stand for.
pub proof fn lemma_weight_of_common_bits()
    ensures
        weight_of_bits(0x3F80_0000) == Some(UNIT as int),
        weight_of_bits(0x3F00_0000) == Some(UNIT as int / 2),
        weight_of_bits(0x3E80_0000) == Some(UNIT as int / 4),
        weight_of_bits(0) == Some(0int),
        weight_of_bits(0x8000_0000) == Some(0int),
        weight_of_bits(0x3F80_0001).is_none(),
        weight_of_bits(0xBF80_0000).is_none(),
        weight_of_bits(0x7FC0_0000).is_none(),
{
    assert((0x3F80_0000u32 >> 23) & 0xff == 127) by (bit_vector);
    assert(((0x3F80_0000u32 & 0x7f_ffff) | 0x80_0000) >> 7u32 == 65536) by (bit_vector);
    assert((0x3F00_0000u32 >> 23) & 0xff == 126) by (bit_vector);
    assert(((0x3F00_0000u32 & 0x7f_ffff) | 0x80_0000) >> 8u32 == 32768) by (bit_vector);
    assert((0x3E80_0000u32 >> 23) & 0xff == 125) by (bit_vector);
    assert(((0x3E80_0000u32 & 0x7f_ffff) | 0x80_0000) >> 9u32 == 16384) by (bit_vector);
    assert((0u32 >> 23) & 0xff == 0) by (bit_vector);
}

} // verus!
