//! Whole sequences of pixels: one table, then one pixel after the other.
use crate::arithmetic::Arithmetic;
use crate::component::GammaComponent;
use crate::pixel::{GammaPixel, RGBAPLU};
use crate::transfer::is_gamma_table;
use vstd::prelude::*;

verus! {

/// `out` has one element for each pixel, in the order of the pixels, and each
/// element may be the linearization of its pixel through the table `lut`.
pub open spec fn linearizes_all<A: Arithmetic, Px: GammaPixel<A>>(
    pixels: Seq<Px>,
    lut: Seq<A::Number>,
    ops: &A,
    out: Seq<Px::Output>,
) -> bool {
    &&& out.len() == pixels.len()
    &&& forall|i: int| 0 <= i < pixels.len() ==> pixels[i].linearizes(lut, ops, #[trigger] out[i])
}

/// `out` may be the linearization of `pixels` through one table of their
/// component encoding, built once and shared by all of them.
pub open spec fn converts<A: Arithmetic, Px: GammaPixel<A>>(
    pixels: Seq<Px>,
    ops: &A,
    out: Seq<Px::Output>,
) -> bool {
    exists|lut: Seq<A::Number>|
        is_gamma_table(lut, Px::Component::max_level(), ops) && #[trigger] linearizes_all(
            pixels,
            lut,
            ops,
            out,
        )
}

/// Linearizes each pixel through the given table.
pub fn linearize_all<A: Arithmetic, Px: GammaPixel<A>>(
    pixels: &[Px],
    gamma_lut: &[A::Number],
    ops: &A,
) -> (out: Vec<Px::Output>)
    requires
        Px::Component::max_level() < gamma_lut@.len(),
    ensures
        linearizes_all(pixels@, gamma_lut@, ops, out@),
{
    let mut out: Vec<Px::Output> = Vec::new();
    let mut i: usize = 0;
    while i < pixels.len()
        invariant
            Px::Component::max_level() < gamma_lut@.len(),
            i <= pixels@.len(),
            out@.len() == i,
            forall|k: int|
                0 <= k < i ==> pixels@[k].linearizes(gamma_lut@, ops, #[trigger] out@[k]),
        decreases pixels@.len() - i,
    {
        let linear = pixels[i].to_linear(gamma_lut, ops);
        out.push(linear);
        i = i + 1;
    }
    out
}

/// Sequences of pixels that become premultiplied linear-light pixels.
pub trait ToRGBAPLU<A: Arithmetic> {
    /// `out` may be the premultiplied linear-light pixels of this sequence.
    spec fn rgbaplu(&self, ops: &A, out: Seq<RGBAPLU<A::Number>>) -> bool;

    /// Builds the table of the pixels' encoding once, then linearizes every
    /// pixel through it.
    fn to_rgbaplu(&self, ops: &A) -> (out: Vec<RGBAPLU<A::Number>>)
        ensures
            self.rgbaplu(ops, out@),
    ;
}

/// Sequences of single components that become linear-light numbers.
pub trait ToGLU<A: Arithmetic> {
    /// `out` may be the linear-light numbers of this sequence.
    spec fn glu(&self, ops: &A, out: Seq<A::Number>) -> bool;

    /// Builds the table of the components' encoding once, then looks every
    /// component up in it.
    fn to_glu(&self, ops: &A) -> (out: Vec<A::Number>)
        ensures
            self.glu(ops, out@),
    ;
}

impl<A: Arithmetic, M: GammaPixel<A, Output = A::Number>> ToGLU<A> for [M] {
    open spec fn glu(&self, ops: &A, out: Seq<A::Number>) -> bool {
        converts(self@, ops, out)
    }

    fn to_glu(&self, ops: &A) -> (out: Vec<A::Number>) {
        let gamma_lut = M::make_lut(ops);
        linearize_all(self, gamma_lut.as_slice(), ops)
    }
}

impl<A: Arithmetic, Px: GammaPixel<A, Output = RGBAPLU<A::Number>>> ToRGBAPLU<A> for [Px] {
    open spec fn rgbaplu(&self, ops: &A, out: Seq<RGBAPLU<A::Number>>) -> bool {
        converts(self@, ops, out)
    }

    fn to_rgbaplu(&self, ops: &A) -> (out: Vec<RGBAPLU<A::Number>>) {
        let gamma_lut = Px::make_lut(ops);
        linearize_all(self, gamma_lut.as_slice(), ops)
    }
}

} // verus!
