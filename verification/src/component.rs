//! Encoded components: unsigned samples of a fixed bit depth.
use vstd::prelude::*;

verus! {

/// An encoded (gamma-compressed) sample that a lookup table can linearize.
///
/// A component type fixes the largest value it encodes, and every value of
/// the type lies between zero and that maximum. A table for the type
/// therefore has `max_level() + 1` entries, and the entry of a component is
/// found at its own level.
pub trait GammaComponent {
    /// The encoded value as a number, which is also its index in a table.
    spec fn level(&self) -> usize;

    /// The largest level that the encoding can hold.
    spec fn max_level() -> usize;

    /// No component lies above the maximum, and a table with one entry per
    /// level can be counted in `usize`.
    proof fn lemma_level_in_range(&self)
        ensures
            self.level() <= Self::max_level(),
            Self::max_level() < usize::MAX,
    ;

    /// The largest level of the encoding.
    fn max_value() -> (max: usize)
        ensures
            max == Self::max_level(),
            max < usize::MAX,
    ;

    /// The level of this component.
    fn value(&self) -> (v: usize)
        ensures
            v == self.level(),
            v <= Self::max_level(),
    ;

    /// Looks this component up in a table that has an entry for every level
    /// of the encoding.
    fn to_linear<L: Copy>(&self, lut: &[L]) -> (linear: L)
        requires
            Self::max_level() < lut@.len(),
        ensures
            linear == lut@[self.level() as int],
    ;
}

impl GammaComponent for u8 {
    open spec fn level(&self) -> usize {
        *self as usize
    }

    open spec fn max_level() -> usize {
        255
    }

    proof fn lemma_level_in_range(&self) {
    }

    fn max_value() -> (max: usize) {
        255
    }

    fn value(&self) -> (v: usize) {
        *self as usize
    }

    fn to_linear<L: Copy>(&self, lut: &[L]) -> (linear: L) {
        lut[*self as usize]
    }
}

impl GammaComponent for u16 {
    open spec fn level(&self) -> usize {
        *self as usize
    }

    open spec fn max_level() -> usize {
        65535
    }

    proof fn lemma_level_in_range(&self) {
    }

    fn max_value() -> (max: usize) {
        65535
    }

    fn value(&self) -> (v: usize) {
        *self as usize
    }

    fn to_linear<L: Copy>(&self, lut: &[L]) -> (linear: L) {
        lut[*self as usize]
    }
}

} // verus!
