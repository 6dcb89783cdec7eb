//! Laws of linearization, proved of every arithmetic, table and pixel.
//!
//! The library does not look inside a number, so a law that rests on how
//! numbers behave names that behaviour as a condition on the arithmetic: that
//! it is deterministic, that full coverage is neutral, or that no coverage
//! annihilates. Floating-point arithmetic meets all three on the tables that
//! it builds.
use crate::arithmetic::{deterministic, is_product, is_ratio, Arithmetic};
use crate::batch::{converts, linearizes_all};
use crate::component::GammaComponent;
use crate::pixel::{GammaPixel, Grey, GreyAlpha, BGR, BGRA, RGB, RGBA, RGBAPLU};
use crate::transfer::{decodes, is_gamma_table, transfers};
use vstd::arithmetic::power2::{lemma2_to64, pow2};
use vstd::prelude::*;

verus! {

/// A table for 8-bit components has `2^8` entries.
pub proof fn lemma_table_length_8_bit<A: Arithmetic>(lut: Seq<A::Number>, ops: &A)
    requires
        is_gamma_table(lut, u8::max_level(), ops),
    ensures
        lut.len() == pow2(8),
{
    lemma2_to64();
}

/// A table for 16-bit components has `2^16` entries.
pub proof fn lemma_table_length_16_bit<A: Arithmetic>(lut: Seq<A::Number>, ops: &A)
    requires
        is_gamma_table(lut, u16::max_level(), ops),
    ensures
        lut.len() == pow2(16),
{
    lemma2_to64();
}

/// Every channel of every pixel finds its entry inside a table of its
/// encoding: no level lies beyond the last entry, and the entry found is the
/// linear light of the channel's own level.
pub proof fn lemma_level_indexes_table<A: Arithmetic, M: GammaComponent>(
    component: M,
    lut: Seq<A::Number>,
    ops: &A,
)
    requires
        is_gamma_table(lut, M::max_level(), ops),
    ensures
        0 <= component.level() < lut.len(),
        decodes(ops, component.level(), M::max_level(), lut[component.level() as int]),
{
    component.lemma_level_in_range();
}

/// With a deterministic arithmetic the transfer function is a function: an
/// encoded number has one linear light, on whichever segment it lies.
pub proof fn lemma_transfer_is_a_function<A: Arithmetic>(
    ops: &A,
    s: A::Number,
    first: A::Number,
    second: A::Number,
)
    requires
        deterministic(ops),
        transfers(ops, s, first),
        transfers(ops, s, second),
    ensures
        first == second,
{
}

/// With a deterministic arithmetic an encoding has one table only.
pub proof fn lemma_table_is_unique<A: Arithmetic>(
    first: Seq<A::Number>,
    second: Seq<A::Number>,
    max: usize,
    ops: &A,
)
    requires
        deterministic(ops),
        is_gamma_table(first, max, ops),
        is_gamma_table(second, max, ops),
    ensures
        first == second,
{
    assert forall|i: int| 0 <= i < first.len() implies first[i] == second[i] by {
        assert(decodes(ops, i as usize, max, first[i]));
        assert(decodes(ops, i as usize, max, second[i]));
        let s = choose|s: A::Number| #[trigger]
            is_ratio(ops, i as usize, max, s) && transfers(ops, s, first[i]);
        let t = choose|t: A::Number| #[trigger]
            is_ratio(ops, i as usize, max, t) && transfers(ops, t, second[i]);
        assert(s == t);
        lemma_transfer_is_a_function(ops, s, first[i], second[i]);
    }
    assert(first =~= second);
}

/// The order of the channels in memory decides only which field is read for
/// which colour: a blue-green-red-alpha pixel is linearized exactly as the
/// red-green-blue-alpha pixel of the same colour and alpha.
pub proof fn lemma_bgra_linearizes_as_rgba<A: Arithmetic, M: GammaComponent>(
    px: BGRA<M>,
    lut: Seq<A::Number>,
    ops: &A,
    out: RGBAPLU<A::Number>,
)
    ensures
        px.linearizes(lut, ops, out) <==> (RGBA { r: px.r, g: px.g, b: px.b, a: px.a }).linearizes(
            lut,
            ops,
            out,
        ),
{
}

/// A blue-green-red pixel is linearized exactly as the red-green-blue pixel
/// of the same colour.
pub proof fn lemma_bgr_linearizes_as_rgb<A: Arithmetic, M: GammaComponent>(
    px: BGR<M>,
    lut: Seq<A::Number>,
    ops: &A,
    out: RGBAPLU<A::Number>,
)
    ensures
        px.linearizes(lut, ops, out) <==> (RGB { r: px.r, g: px.g, b: px.b }).linearizes(
            lut,
            ops,
            out,
        ),
{
}

/// A grey pixel without alpha is linearized as the opaque colour pixel whose
/// three channels all hold the grey value: red, green and blue are equal.
pub proof fn lemma_grey_linearizes_as_rgb<A: Arithmetic, M: GammaComponent>(
    px: Grey<M>,
    lut: Seq<A::Number>,
    ops: &A,
    out: RGBAPLU<A::Number>,
)
    ensures
        px.linearizes(lut, ops, out) <==> (RGB { r: px.0, g: px.0, b: px.0 }).linearizes(
            lut,
            ops,
            out,
        ),
        px.linearizes(lut, ops, out) ==> out.r == out.g && out.g == out.b,
{
}

/// A grey pixel and the bare component of the same value read the same
/// table entry: the pixel holds it in each colour field, the component is
/// linearized to the entry alone.
pub proof fn lemma_grey_holds_the_bare_component<A: Arithmetic, M: GammaComponent>(
    px: Grey<M>,
    lut: Seq<A::Number>,
    ops: &A,
    out: RGBAPLU<A::Number>,
)
    requires
        px.linearizes(lut, ops, out),
    ensures
        GammaPixel::<A>::linearizes(&px.0, lut, ops, out.r),
        GammaPixel::<A>::linearizes(&px.0, lut, ops, out.g),
        GammaPixel::<A>::linearizes(&px.0, lut, ops, out.b),
{
}

/// A grey pixel with alpha keeps red, green and blue equal, and is
/// linearized as the colour pixel whose three channels all hold the grey
/// value may be.
pub proof fn lemma_grey_alpha_linearizes_as_rgba<A: Arithmetic, M: GammaComponent>(
    px: GreyAlpha<M>,
    lut: Seq<A::Number>,
    ops: &A,
    out: RGBAPLU<A::Number>,
)
    requires
        px.linearizes(lut, ops, out),
    ensures
        out.r == out.g && out.g == out.b,
        (RGBA { r: px.0, g: px.0, b: px.0, a: px.1 }).linearizes(lut, ops, out),
{
}

/// The maximum alpha is full coverage, and full coverage is neutral:
/// `max / max` is `1 / 1`, and an entry of `lut` times `1 / 1` is that entry.
pub open spec fn full_coverage_is_neutral<A: Arithmetic>(
    ops: &A,
    max: usize,
    lut: Seq<A::Number>,
) -> bool {
    &&& forall|u: A::Number, one: A::Number|
        #![trigger is_ratio(ops, max, max, u), is_ratio(ops, 1, 1, one)]
        is_ratio(ops, max, max, u) && is_ratio(ops, 1, 1, one) ==> u == one
    &&& forall|i: int, one: A::Number, y: A::Number|
        0 <= i < lut.len() && is_ratio(ops, 1, 1, one) && #[trigger] is_product(
            ops,
            lut[i],
            one,
            y,
        ) ==> y == lut[i]
}

/// No coverage annihilates: an entry of `lut` times `0 / max` is `zero`,
/// whichever entry it is.
pub open spec fn no_coverage_annihilates<A: Arithmetic>(
    ops: &A,
    max: usize,
    lut: Seq<A::Number>,
    zero: A::Number,
) -> bool {
    forall|i: int, u: A::Number, y: A::Number|
        0 <= i < lut.len() && is_ratio(ops, 0, max, u) && #[trigger] is_product(ops, lut[i], u, y)
            ==> y == zero
}

/// A fully opaque pixel comes out unpremultiplied. Where full coverage is
/// neutral, a red-green-blue-alpha pixel with the maximum alpha is
/// linearized to what the same colour without an alpha channel is
/// linearized to: each colour field is its table entry, and the alpha is
/// that of an opaque pixel.
pub proof fn lemma_full_alpha_rgba<A: Arithmetic, M: GammaComponent>(
    px: RGBA<M>,
    lut: Seq<A::Number>,
    ops: &A,
    out: RGBAPLU<A::Number>,
    plain: RGBAPLU<A::Number>,
)
    requires
        M::max_level() < lut.len(),
        px.a.level() == M::max_level(),
        full_coverage_is_neutral(ops, M::max_level(), lut),
        px.linearizes(lut, ops, out),
        (RGB { r: px.r, g: px.g, b: px.b }).linearizes(lut, ops, plain),
    ensures
        out == plain,
        out.r == lut[px.r.level() as int],
        out.g == lut[px.g.level() as int],
        out.b == lut[px.b.level() as int],
{
    px.r.lemma_level_in_range();
    px.g.lemma_level_in_range();
    px.b.lemma_level_in_range();
}

/// A fully opaque blue-green-red-alpha pixel comes out unpremultiplied, as
/// the same colour without an alpha channel does.
pub proof fn lemma_full_alpha_bgra<A: Arithmetic, M: GammaComponent>(
    px: BGRA<M>,
    lut: Seq<A::Number>,
    ops: &A,
    out: RGBAPLU<A::Number>,
    plain: RGBAPLU<A::Number>,
)
    requires
        M::max_level() < lut.len(),
        px.a.level() == M::max_level(),
        full_coverage_is_neutral(ops, M::max_level(), lut),
        px.linearizes(lut, ops, out),
        (BGR { b: px.b, g: px.g, r: px.r }).linearizes(lut, ops, plain),
    ensures
        out == plain,
        out.r == lut[px.r.level() as int],
        out.g == lut[px.g.level() as int],
        out.b == lut[px.b.level() as int],
{
    px.r.lemma_level_in_range();
    px.g.lemma_level_in_range();
    px.b.lemma_level_in_range();
}

/// A fully opaque grey pixel with alpha comes out unpremultiplied, as the
/// same grey without an alpha channel does.
pub proof fn lemma_full_alpha_grey<A: Arithmetic, M: GammaComponent>(
    px: GreyAlpha<M>,
    lut: Seq<A::Number>,
    ops: &A,
    out: RGBAPLU<A::Number>,
    plain: RGBAPLU<A::Number>,
)
    requires
        M::max_level() < lut.len(),
        px.1.level() == M::max_level(),
        full_coverage_is_neutral(ops, M::max_level(), lut),
        px.linearizes(lut, ops, out),
        Grey(px.0).linearizes(lut, ops, plain),
    ensures
        out == plain,
        out.r == lut[px.0.level() as int],
        out.g == lut[px.0.level() as int],
        out.b == lut[px.0.level() as int],
{
    px.0.lemma_level_in_range();
}

/// A fully transparent pixel has no colour left. Where no coverage
/// annihilates, the three colour fields of a red-green-blue-alpha pixel with
/// alpha zero are `zero`, whatever its encoded colour.
pub proof fn lemma_zero_alpha_rgba<A: Arithmetic, M: GammaComponent>(
    px: RGBA<M>,
    lut: Seq<A::Number>,
    ops: &A,
    zero: A::Number,
    out: RGBAPLU<A::Number>,
)
    requires
        M::max_level() < lut.len(),
        px.a.level() == 0,
        no_coverage_annihilates(ops, M::max_level(), lut, zero),
        px.linearizes(lut, ops, out),
    ensures
        out.r == zero,
        out.g == zero,
        out.b == zero,
{
    px.r.lemma_level_in_range();
    px.g.lemma_level_in_range();
    px.b.lemma_level_in_range();
}

/// The three colour fields of a fully transparent blue-green-red-alpha pixel
/// are `zero`, whatever its encoded colour.
pub proof fn lemma_zero_alpha_bgra<A: Arithmetic, M: GammaComponent>(
    px: BGRA<M>,
    lut: Seq<A::Number>,
    ops: &A,
    zero: A::Number,
    out: RGBAPLU<A::Number>,
)
    requires
        M::max_level() < lut.len(),
        px.a.level() == 0,
        no_coverage_annihilates(ops, M::max_level(), lut, zero),
        px.linearizes(lut, ops, out),
    ensures
        out.r == zero,
        out.g == zero,
        out.b == zero,
{
    px.r.lemma_level_in_range();
    px.g.lemma_level_in_range();
    px.b.lemma_level_in_range();
}

/// The three colour fields of a fully transparent grey pixel are `zero`,
/// whatever its encoded grey value.
pub proof fn lemma_zero_alpha_grey<A: Arithmetic, M: GammaComponent>(
    px: GreyAlpha<M>,
    lut: Seq<A::Number>,
    ops: &A,
    zero: A::Number,
    out: RGBAPLU<A::Number>,
)
    requires
        M::max_level() < lut.len(),
        px.1.level() == 0,
        no_coverage_annihilates(ops, M::max_level(), lut, zero),
        px.linearizes(lut, ops, out),
    ensures
        out.r == zero,
        out.g == zero,
        out.b == zero,
{
    px.0.lemma_level_in_range();
}

/// With a deterministic arithmetic the output of a batch is a function of
/// its input: converting the same pixels again gives the same result.
pub proof fn lemma_conversion_is_repeatable<A: Arithmetic, Px: GammaPixel<A>>(
    pixels: Seq<Px>,
    ops: &A,
    first: Seq<Px::Output>,
    second: Seq<Px::Output>,
)
    requires
        deterministic(ops),
        converts(pixels, ops, first),
        converts(pixels, ops, second),
    ensures
        first == second,
{
    let max = Px::Component::max_level();
    let lut = choose|lut: Seq<A::Number>|
        is_gamma_table(lut, max, ops) && #[trigger] linearizes_all(pixels, lut, ops, first);
    let other = choose|other: Seq<A::Number>|
        is_gamma_table(other, max, ops) && #[trigger] linearizes_all(pixels, other, ops, second);
    lemma_table_is_unique(lut, other, max, ops);
    assert forall|i: int| 0 <= i < pixels.len() implies first[i] == second[i] by {
        pixels[i].lemma_linearizes_once(lut, ops, first[i], second[i]);
    }
    assert(first =~= second);
}

/// A conversion keeps the length and the order of its input: an empty input
/// gives an empty output, and there is one table of the encoding through
/// which the element at each place of the output is the linearization of
/// the pixel at the same place of the input.
pub proof fn lemma_conversion_keeps_length_and_order<A: Arithmetic, Px: GammaPixel<A>>(
    pixels: Seq<Px>,
    ops: &A,
    out: Seq<Px::Output>,
)
    requires
        converts(pixels, ops, out),
    ensures
        out.len() == pixels.len(),
        pixels.len() == 0 ==> out == Seq::<Px::Output>::empty(),
        exists|lut: Seq<A::Number>| #[trigger]
            is_gamma_table(lut, Px::Component::max_level(), ops) && forall|i: int|
                0 <= i < pixels.len() ==> pixels[i].linearizes(lut, ops, #[trigger] out[i]),
{
    let lut = choose|lut: Seq<A::Number>|
        is_gamma_table(lut, Px::Component::max_level(), ops) && #[trigger] linearizes_all(
            pixels,
            lut,
            ops,
            out,
        );
    assert(is_gamma_table(lut, Px::Component::max_level(), ops));
    if pixels.len() == 0 {
        assert(out =~= Seq::<Px::Output>::empty());
    }
}

/// No pixel's result depends on another pixel: any stretch of the input,
/// taken through the same table, gives the same stretch of the output.
pub proof fn lemma_batch_of_subrange<A: Arithmetic, Px: GammaPixel<A>>(
    pixels: Seq<Px>,
    lut: Seq<A::Number>,
    ops: &A,
    out: Seq<Px::Output>,
    from: int,
    to: int,
)
    requires
        linearizes_all(pixels, lut, ops, out),
        0 <= from <= to <= pixels.len(),
    ensures
        linearizes_all(pixels.subrange(from, to), lut, ops, out.subrange(from, to)),
{
    let part = pixels.subrange(from, to);
    let part_out = out.subrange(from, to);
    assert forall|i: int| 0 <= i < part.len() implies part[i].linearizes(
        lut,
        ops,
        #[trigger] part_out[i],
    ) by {
        assert(part[i] == pixels[from + i]);
        assert(part_out[i] == out[from + i]);
    }
}

/// Two batches through one table, put end to end, are the batch of the two
/// inputs put end to end.
pub proof fn lemma_batch_of_concatenation<A: Arithmetic, Px: GammaPixel<A>>(
    first: Seq<Px>,
    second: Seq<Px>,
    lut: Seq<A::Number>,
    ops: &A,
    first_out: Seq<Px::Output>,
    second_out: Seq<Px::Output>,
)
    requires
        linearizes_all(first, lut, ops, first_out),
        linearizes_all(second, lut, ops, second_out),
    ensures
        linearizes_all(first + second, lut, ops, first_out + second_out),
{
    let pixels = first + second;
    let out = first_out + second_out;
    assert forall|i: int| 0 <= i < pixels.len() implies pixels[i].linearizes(
        lut,
        ops,
        #[trigger] out[i],
    ) by {
        if i < first.len() {
            assert(pixels[i] == first[i]);
            assert(out[i] == first_out[i]);
        } else {
            assert(pixels[i] == second[i - first.len()]);
            assert(out[i] == second_out[i - first.len()]);
        }
    }
}

} // verus!
