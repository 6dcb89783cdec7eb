//! Pixel layouts and their linearization.
use crate::arithmetic::{deterministic, is_product, is_ratio, Arithmetic};
use crate::component::GammaComponent;
use crate::transfer::{decode, decodes, is_gamma_table};
use vstd::prelude::*;

verus! {

/// Red, green, blue and alpha, in that order.
#[derive(Clone, Copy, Debug, PartialEq, Eq)]
pub struct RGBA<M> {
    pub r: M,
    pub g: M,
    pub b: M,
    pub a: M,
}

/// Blue, green, red and alpha, in that order.
#[derive(Clone, Copy, Debug, PartialEq, Eq)]
pub struct BGRA<M> {
    pub b: M,
    pub g: M,
    pub r: M,
    pub a: M,
}

/// Red, green and blue, in that order, without alpha.
#[derive(Clone, Copy, Debug, PartialEq, Eq)]
pub struct RGB<M> {
    pub r: M,
    pub g: M,
    pub b: M,
}

/// Blue, green and red, in that order, without alpha.
#[derive(Clone, Copy, Debug, PartialEq, Eq)]
pub struct BGR<M> {
    pub b: M,
    pub g: M,
    pub r: M,
}

/// A grey value, then its alpha.
#[derive(Clone, Copy, Debug, PartialEq, Eq)]
pub struct GreyAlpha<M>(pub M, pub M);

/// A grey value without alpha, to be linearized to a full pixel.
#[derive(Clone, Copy, Debug, PartialEq, Eq)]
pub struct Grey<M>(pub M);

/// A pixel in linear light on the unit scale, its colour premultiplied by its
/// alpha.
#[derive(Clone, Copy, Debug, PartialEq)]
pub struct RGBAPLU<L> {
    pub r: L,
    pub g: L,
    pub b: L,
    pub a: L,
}

/// `out` may be the linear colour `(r, g, b)` under the coverage
/// `alpha / max`: its alpha is that ratio, and each colour field is the
/// linear value times this same alpha.
pub open spec fn is_premultiplied<A: Arithmetic>(
    ops: &A,
    r: A::Number,
    g: A::Number,
    b: A::Number,
    alpha: usize,
    max: usize,
    out: RGBAPLU<A::Number>,
) -> bool {
    &&& is_ratio(ops, alpha, max, out.a)
    &&& is_product(ops, r, out.a, out.r)
    &&& is_product(ops, g, out.a, out.g)
    &&& is_product(ops, b, out.a, out.b)
}

/// `out` may be the linear colour `(r, g, b)` at full coverage: the colour as
/// it is, and an alpha of one.
pub open spec fn is_opaque<A: Arithmetic>(
    ops: &A,
    r: A::Number,
    g: A::Number,
    b: A::Number,
    out: RGBAPLU<A::Number>,
) -> bool {
    &&& out.r == r
    &&& out.g == g
    &&& out.b == b
    &&& is_ratio(ops, 1, 1, out.a)
}

/// Premultiplies a linear colour by the coverage `alpha / max`.
pub fn premultiplied<A: Arithmetic>(
    ops: &A,
    r: A::Number,
    g: A::Number,
    b: A::Number,
    alpha: usize,
    max: usize,
) -> (out: RGBAPLU<A::Number>)
    ensures
        is_premultiplied(ops, r, g, b, alpha, max, out),
{
    let a_unit = ops.ratio(alpha, max);
    RGBAPLU {
        r: ops.product(r, a_unit),
        g: ops.product(g, a_unit),
        b: ops.product(b, a_unit),
        a: a_unit,
    }
}

/// A linear colour at full coverage, which needs no premultiplication.
pub fn opaque<A: Arithmetic>(ops: &A, r: A::Number, g: A::Number, b: A::Number) -> (out: RGBAPLU<
    A::Number,
>)
    ensures
        is_opaque(ops, r, g, b, out),
{
    RGBAPLU { r, g, b, a: ops.ratio(1, 1) }
}

/// A pixel that a lookup table turns into linear light.
///
/// `Output` is a bare number for a single component without alpha and an
/// [`RGBAPLU`] for every other layout.
pub trait GammaPixel<A: Arithmetic> {
    /// The encoding of each channel, alpha included.
    type Component: GammaComponent;

    /// What the pixel is linearized to.
    type Output;

    /// `out` may be the linearization of this pixel through the table `lut`.
    spec fn linearizes(&self, lut: Seq<A::Number>, ops: &A, out: Self::Output) -> bool;

    /// With a deterministic arithmetic a pixel has one linearization only.
    proof fn lemma_linearizes_once(
        &self,
        lut: Seq<A::Number>,
        ops: &A,
        first: Self::Output,
        second: Self::Output,
    )
        requires
            deterministic(ops),
            self.linearizes(lut, ops, first),
            self.linearizes(lut, ops, second),
        ensures
            first == second,
    ;

    /// Linearizes the pixel through a table that has an entry for every
    /// level of its component encoding.
    fn to_linear(&self, gamma_lut: &[A::Number], ops: &A) -> (out: Self::Output)
        requires
            Self::Component::max_level() < gamma_lut@.len(),
        ensures
            self.linearizes(gamma_lut@, ops, out),
    ;

    /// Builds the table of the component encoding: one entry for each level
    /// from zero to the maximum, in order, each the linear light of its own
    /// level.
    fn make_lut(ops: &A) -> (lut: Vec<A::Number>)
        ensures
            is_gamma_table(lut@, Self::Component::max_level(), ops),
    {
        let max: usize = Self::Component::max_value();
        let mut lut: Vec<A::Number> = Vec::new();
        let mut level: usize = 0;
        while level <= max
            invariant
                max < usize::MAX,
                level <= max + 1,
                lut@.len() == level,
                forall|i: int| 0 <= i < level ==> decodes(ops, i as usize, max, #[trigger] lut@[i]),
            decreases max + 1 - level,
        {
            let linear = decode(ops, level, max);
            lut.push(linear);
            level = level + 1;
        }
        lut
    }
}

impl<A: Arithmetic, M: GammaComponent> GammaPixel<A> for RGBA<M> {
    type Component = M;

    type Output = RGBAPLU<A::Number>;

    open spec fn linearizes(&self, lut: Seq<A::Number>, ops: &A, out: RGBAPLU<A::Number>) -> bool {
        is_premultiplied(
            ops,
            lut[self.r.level() as int],
            lut[self.g.level() as int],
            lut[self.b.level() as int],
            self.a.level(),
            M::max_level(),
            out,
        )
    }

    proof fn lemma_linearizes_once(
        &self,
        lut: Seq<A::Number>,
        ops: &A,
        first: RGBAPLU<A::Number>,
        second: RGBAPLU<A::Number>,
    ) {
    }

    fn to_linear(&self, gamma_lut: &[A::Number], ops: &A) -> (out: RGBAPLU<A::Number>) {
        premultiplied(
            ops,
            self.r.to_linear(gamma_lut),
            self.g.to_linear(gamma_lut),
            self.b.to_linear(gamma_lut),
            self.a.value(),
            M::max_value(),
        )
    }
}

impl<A: Arithmetic, M: GammaComponent> GammaPixel<A> for BGRA<M> {
    type Component = M;

    type Output = RGBAPLU<A::Number>;

    open spec fn linearizes(&self, lut: Seq<A::Number>, ops: &A, out: RGBAPLU<A::Number>) -> bool {
        is_premultiplied(
            ops,
            lut[self.r.level() as int],
            lut[self.g.level() as int],
            lut[self.b.level() as int],
            self.a.level(),
            M::max_level(),
            out,
        )
    }

    proof fn lemma_linearizes_once(
        &self,
        lut: Seq<A::Number>,
        ops: &A,
        first: RGBAPLU<A::Number>,
        second: RGBAPLU<A::Number>,
    ) {
    }

    fn to_linear(&self, gamma_lut: &[A::Number], ops: &A) -> (out: RGBAPLU<A::Number>) {
        premultiplied(
            ops,
            self.r.to_linear(gamma_lut),
            self.g.to_linear(gamma_lut),
            self.b.to_linear(gamma_lut),
            self.a.value(),
            M::max_value(),
        )
    }
}

impl<A: Arithmetic, M: GammaComponent> GammaPixel<A> for RGB<M> {
    type Component = M;

    type Output = RGBAPLU<A::Number>;

    open spec fn linearizes(&self, lut: Seq<A::Number>, ops: &A, out: RGBAPLU<A::Number>) -> bool {
        is_opaque(
            ops,
            lut[self.r.level() as int],
            lut[self.g.level() as int],
            lut[self.b.level() as int],
            out,
        )
    }

    proof fn lemma_linearizes_once(
        &self,
        lut: Seq<A::Number>,
        ops: &A,
        first: RGBAPLU<A::Number>,
        second: RGBAPLU<A::Number>,
    ) {
    }

    fn to_linear(&self, gamma_lut: &[A::Number], ops: &A) -> (out: RGBAPLU<A::Number>) {
        opaque(
            ops,
            self.r.to_linear(gamma_lut),
            self.g.to_linear(gamma_lut),
            self.b.to_linear(gamma_lut),
        )
    }
}

impl<A: Arithmetic, M: GammaComponent> GammaPixel<A> for BGR<M> {
    type Component = M;

    type Output = RGBAPLU<A::Number>;

    open spec fn linearizes(&self, lut: Seq<A::Number>, ops: &A, out: RGBAPLU<A::Number>) -> bool {
        is_opaque(
            ops,
            lut[self.r.level() as int],
            lut[self.g.level() as int],
            lut[self.b.level() as int],
            out,
        )
    }

    proof fn lemma_linearizes_once(
        &self,
        lut: Seq<A::Number>,
        ops: &A,
        first: RGBAPLU<A::Number>,
        second: RGBAPLU<A::Number>,
    ) {
    }

    fn to_linear(&self, gamma_lut: &[A::Number], ops: &A) -> (out: RGBAPLU<A::Number>) {
        opaque(
            ops,
            self.r.to_linear(gamma_lut),
            self.g.to_linear(gamma_lut),
            self.b.to_linear(gamma_lut),
        )
    }
}

impl<A: Arithmetic, M: GammaComponent> GammaPixel<A> for GreyAlpha<M> {
    type Component = M;

    type Output = RGBAPLU<A::Number>;

    /// The grey value is scaled once, and the three colour fields are that
    /// one number.
    open spec fn linearizes(&self, lut: Seq<A::Number>, ops: &A, out: RGBAPLU<A::Number>) -> bool {
        &&& is_ratio(ops, self.1.level(), M::max_level(), out.a)
        &&& is_product(ops, lut[self.0.level() as int], out.a, out.r)
        &&& out.g == out.r
        &&& out.b == out.r
    }

    proof fn lemma_linearizes_once(
        &self,
        lut: Seq<A::Number>,
        ops: &A,
        first: RGBAPLU<A::Number>,
        second: RGBAPLU<A::Number>,
    ) {
    }

    fn to_linear(&self, gamma_lut: &[A::Number], ops: &A) -> (out: RGBAPLU<A::Number>) {
        let a_unit = ops.ratio(self.1.value(), M::max_value());
        let g = ops.product(self.0.to_linear(gamma_lut), a_unit);
        RGBAPLU { r: g, g, b: g, a: a_unit }
    }
}

impl<A: Arithmetic, M: GammaComponent> GammaPixel<A> for Grey<M> {
    type Component = M;

    type Output = RGBAPLU<A::Number>;

    open spec fn linearizes(&self, lut: Seq<A::Number>, ops: &A, out: RGBAPLU<A::Number>) -> bool {
        is_opaque(
            ops,
            lut[self.0.level() as int],
            lut[self.0.level() as int],
            lut[self.0.level() as int],
            out,
        )
    }

    proof fn lemma_linearizes_once(
        &self,
        lut: Seq<A::Number>,
        ops: &A,
        first: RGBAPLU<A::Number>,
        second: RGBAPLU<A::Number>,
    ) {
    }

    fn to_linear(&self, gamma_lut: &[A::Number], ops: &A) -> (out: RGBAPLU<A::Number>) {
        let g = self.0.to_linear(gamma_lut);
        opaque(ops, g, g, g)
    }
}

/// A bare component is a pixel of one channel without alpha. It alone is
/// linearized to a single number: its table entry, neither padded to a full
/// pixel nor premultiplied.
impl<A: Arithmetic, M: GammaComponent> GammaPixel<A> for M {
    type Component = M;

    type Output = A::Number;

    open spec fn linearizes(&self, lut: Seq<A::Number>, ops: &A, out: A::Number) -> bool {
        out == lut[self.level() as int]
    }

    proof fn lemma_linearizes_once(
        &self,
        lut: Seq<A::Number>,
        ops: &A,
        first: A::Number,
        second: A::Number,
    ) {
    }

    fn to_linear(&self, gamma_lut: &[A::Number], ops: &A) -> (out: A::Number) {
        GammaComponent::to_linear(self, gamma_lut)
    }
}

} // verus!
