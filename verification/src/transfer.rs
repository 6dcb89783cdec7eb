//! The gamma transfer function and the lookup table made of it.
use crate::arithmetic::{is_at_most, is_power, is_quotient, is_ratio, is_sum, Arithmetic};
use vstd::prelude::*;

verus! {

/// `linear` may be `s` on the linear segment of the transfer function: `s`
/// divided by 1292/100.
pub open spec fn on_linear_segment<A: Arithmetic>(
    ops: &A,
    s: A::Number,
    linear: A::Number,
) -> bool {
    exists|slope: A::Number| #[trigger]
        is_ratio(ops, 1292, 100, slope) && is_quotient(ops, s, slope, linear)
}

/// `linear` may be `s` on the power segment of the transfer function: `s`
/// plus 55/1000, divided by 1055/1000, raised to 24/10.
pub open spec fn on_power_segment<A: Arithmetic>(
    ops: &A,
    s: A::Number,
    linear: A::Number,
) -> bool {
    exists|
        offset: A::Number,
        shifted: A::Number,
        scale: A::Number,
        base: A::Number,
        exponent: A::Number,
    |
        #![trigger
            is_sum(ops, s, offset, shifted),
            is_quotient(ops, shifted, scale, base),
            is_power(ops, base, exponent, linear)]
        {
            &&& is_ratio(ops, 55, 1000, offset)
            &&& is_sum(ops, s, offset, shifted)
            &&& is_ratio(ops, 1055, 1000, scale)
            &&& is_quotient(ops, shifted, scale, base)
            &&& is_ratio(ops, 24, 10, exponent)
            &&& is_power(ops, base, exponent, linear)
        }
}

/// `linear` may be the linear light of the gamma-encoded `s`: `s` is
/// compared with 4045/100000, and up to there it lies on the linear segment,
/// beyond it on the power segment.
pub open spec fn transfers<A: Arithmetic>(ops: &A, s: A::Number, linear: A::Number) -> bool {
    exists|threshold: A::Number, below: bool|
        #![trigger is_at_most(ops, s, threshold, below)]
        {
            &&& is_ratio(ops, 4045, 100_000, threshold)
            &&& is_at_most(ops, s, threshold, below)
            &&& if below {
                on_linear_segment(ops, s, linear)
            } else {
                on_power_segment(ops, s, linear)
            }
        }
}

/// The gamma-to-linear transfer function on the unit scale.
///
/// Near black the encoding is linear, which keeps quantization noise from
/// being amplified; everywhere else it is a power law.
pub fn to_linear<A: Arithmetic>(ops: &A, s: A::Number) -> (linear: A::Number)
    ensures
        transfers(ops, s, linear),
{
    let threshold = ops.ratio(4045, 100_000);
    let below = ops.at_most(s, threshold);
    if below {
        let slope = ops.ratio(1292, 100);
        let linear = ops.quotient(s, slope);
        assert(on_linear_segment(ops, s, linear)) by {
            assert(is_ratio(ops, 1292, 100, slope) && is_quotient(ops, s, slope, linear));
        }
        assert(is_at_most(ops, s, threshold, below));
        linear
    } else {
        let offset = ops.ratio(55, 1000);
        let shifted = ops.sum(s, offset);
        let scale = ops.ratio(1055, 1000);
        let base = ops.quotient(shifted, scale);
        let exponent = ops.ratio(24, 10);
        let linear = ops.power(base, exponent);
        assert(on_power_segment(ops, s, linear)) by {
            assert(is_sum(ops, s, offset, shifted) && is_quotient(ops, shifted, scale, base)
                && is_power(ops, base, exponent, linear));
        }
        assert(is_at_most(ops, s, threshold, below));
        linear
    }
}

/// `linear` may be the table entry of `level` in an encoding with maximum
/// `max`: the linear light of `level / max`.
pub open spec fn decodes<A: Arithmetic>(
    ops: &A,
    level: usize,
    max: usize,
    linear: A::Number,
) -> bool {
    exists|s: A::Number| #[trigger] is_ratio(ops, level, max, s) && transfers(ops, s, linear)
}

/// `lut` is the lookup table of an encoding with maximum `max`: it has one
/// entry for each level from zero to `max`, in order, and each entry is the
/// linear light of its level.
pub open spec fn is_gamma_table<A: Arithmetic>(lut: Seq<A::Number>, max: usize, ops: &A) -> bool {
    &&& lut.len() == max + 1
    &&& forall|i: int| 0 <= i <= max ==> decodes(ops, i as usize, max, #[trigger] lut[i])
}

/// The table entry of one level.
pub fn decode<A: Arithmetic>(ops: &A, level: usize, max: usize) -> (linear: A::Number)
    ensures
        decodes(ops, level, max, linear),
{
    let s = ops.ratio(level, max);
    let linear = to_linear(ops, s);
    assert(is_ratio(ops, level, max, s) && transfers(ops, s, linear));
    linear
}

} // verus!
