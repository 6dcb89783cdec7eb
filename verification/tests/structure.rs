//! The library on an arithmetic of formulas: every number is the text of the
//! operations that made it, so a result shows what was computed from what.
use linear_light::pixel::{opaque, premultiplied};
use linear_light::transfer::{decode, to_linear};
use linear_light::{
    linearize_all, Arithmetic, GammaComponent, GammaPixel, Grey, GreyAlpha, ToGLU, ToRGBAPLU, BGR,
    BGRA, RGB, RGBA, RGBAPLU,
};
use std::cell::RefCell;

/// Numbers are indices into a list of formulas. A formula that starts with a
/// digit is a ratio; `at_most` compares the values of two ratios and answers
/// `false` for anything else.
struct Formulas {
    texts: RefCell<Vec<String>>,
}

impl Formulas {
    fn new() -> Self {
        Formulas { texts: RefCell::new(Vec::new()) }
    }

    fn put(&self, text: String) -> usize {
        let mut texts = self.texts.borrow_mut();
        texts.push(text);
        texts.len() - 1
    }

    fn text(&self, number: usize) -> String {
        self.texts.borrow()[number].clone()
    }

    fn value(&self, number: usize) -> Option<(u128, u128)> {
        let text = self.text(number);
        let (n, d) = text.split_once('/')?;
        Some((n.parse().ok()?, d.parse().ok()?))
    }

    fn texts_of(&self, px: RGBAPLU<usize>) -> [String; 4] {
        [self.text(px.r), self.text(px.g), self.text(px.b), self.text(px.a)]
    }
}

impl Arithmetic for Formulas {
    type Number = usize;

    fn ratio(&self, numerator: usize, denominator: usize) -> usize {
        self.put(format!("{}/{}", numerator, denominator))
    }

    fn sum(&self, a: usize, b: usize) -> usize {
        self.put(format!("({} + {})", self.text(a), self.text(b)))
    }

    fn quotient(&self, a: usize, b: usize) -> usize {
        self.put(format!("({} : {})", self.text(a), self.text(b)))
    }

    fn product(&self, a: usize, b: usize) -> usize {
        self.put(format!("({} * {})", self.text(a), self.text(b)))
    }

    fn power(&self, base: usize, exponent: usize) -> usize {
        self.put(format!("({} ^ {})", self.text(base), self.text(exponent)))
    }

    fn at_most(&self, a: usize, b: usize) -> bool {
        match (self.value(a), self.value(b)) {
            (Some((an, ad)), Some((bn, bd))) => an * bd <= bn * ad,
            _ => false,
        }
    }
}

/// The formula of the table entry of `level` in an encoding with maximum
/// `max`.
fn entry(level: usize, max: usize) -> String {
    if level * 100_000 <= 4045 * max {
        format!("({}/{} : 1292/100)", level, max)
    } else {
        format!("((({}/{} + 55/1000) : 1055/1000) ^ 24/10)", level, max)
    }
}

#[test]
fn components_know_their_maximum_and_level() {
    assert_eq!(<u8 as GammaComponent>::max_value(), 255);
    assert_eq!(<u16 as GammaComponent>::max_value(), 65535);
    assert_eq!(0u8.value(), 0);
    assert_eq!(200u8.value(), 200);
    assert_eq!(255u8.value(), 255);
    assert_eq!(256u16.value(), 256);
    assert_eq!(65535u16.value(), 65535);
}

#[test]
fn a_component_reads_the_entry_at_its_level() {
    let lut: Vec<u32> = (0..256u32).map(|i| 1000 + i).collect();
    assert_eq!(GammaComponent::to_linear(&0u8, &lut), 1000);
    assert_eq!(GammaComponent::to_linear(&17u8, &lut), 1017);
    assert_eq!(GammaComponent::to_linear(&255u8, &lut), 1255);
    let wide: Vec<u32> = (0..65536u32).map(|i| 3 * i).collect();
    assert_eq!(GammaComponent::to_linear(&0u16, &wide), 0);
    assert_eq!(GammaComponent::to_linear(&300u16, &wide), 900);
    assert_eq!(GammaComponent::to_linear(&65535u16, &wide), 196605);
}

#[test]
fn transfer_divides_on_the_linear_segment() {
    let ops = Formulas::new();
    let s = ops.ratio(4, 100);
    assert_eq!(ops.text(to_linear(&ops, s)), "(4/100 : 1292/100)");
    let threshold = ops.ratio(4045, 100_000);
    assert_eq!(ops.text(to_linear(&ops, threshold)), "(4045/100000 : 1292/100)");
    let zero = ops.ratio(0, 255);
    assert_eq!(ops.text(to_linear(&ops, zero)), "(0/255 : 1292/100)");
}

#[test]
fn transfer_raises_on_the_power_segment() {
    let ops = Formulas::new();
    let s = ops.ratio(4046, 100_000);
    assert_eq!(
        ops.text(to_linear(&ops, s)),
        "(((4046/100000 + 55/1000) : 1055/1000) ^ 24/10)"
    );
    let one = ops.ratio(255, 255);
    assert_eq!(ops.text(to_linear(&ops, one)), "(((255/255 + 55/1000) : 1055/1000) ^ 24/10)");
}

#[test]
fn decode_is_the_transfer_of_level_over_maximum_as_a_formula() {
    let ops = Formulas::new();
    assert_eq!(ops.text(decode(&ops, 10, 255)), "(10/255 : 1292/100)");
    assert_eq!(ops.text(decode(&ops, 11, 255)), "(((11/255 + 55/1000) : 1055/1000) ^ 24/10)");
    assert_eq!(ops.text(decode(&ops, 2650, 65535)), "(2650/65535 : 1292/100)");
    assert_eq!(
        ops.text(decode(&ops, 2651, 65535)),
        "(((2651/65535 + 55/1000) : 1055/1000) ^ 24/10)"
    );
}

#[test]
fn table_has_one_entry_per_level_in_order() {
    let ops = Formulas::new();
    let lut = <u8 as GammaPixel<Formulas>>::make_lut(&ops);
    assert_eq!(lut.len(), 256);
    for (i, &e) in lut.iter().enumerate() {
        assert_eq!(ops.text(e), entry(i, 255));
    }
    let wide = <GreyAlpha<u16> as GammaPixel<Formulas>>::make_lut(&ops);
    assert_eq!(wide.len(), 65536);
    for (i, &e) in wide.iter().enumerate() {
        assert_eq!(ops.text(e), entry(i, 65535));
    }
}

#[test]
fn premultiplied_scales_each_colour_by_the_one_alpha() {
    let ops = Formulas::new();
    let (r, g, b) = (ops.ratio(1, 2), ops.ratio(3, 4), ops.ratio(5, 6));
    let out = premultiplied(&ops, r, g, b, 7, 8);
    assert_eq!(ops.texts_of(out), ["(1/2 * 7/8)", "(3/4 * 7/8)", "(5/6 * 7/8)", "7/8"]);
}

#[test]
fn opaque_keeps_each_colour_and_sets_alpha_to_one() {
    let ops = Formulas::new();
    let (r, g, b) = (ops.ratio(1, 2), ops.ratio(3, 4), ops.ratio(5, 6));
    let out = opaque(&ops, r, g, b);
    assert_eq!((out.r, out.g, out.b), (r, g, b));
    assert_eq!(ops.texts_of(out), ["1/2", "3/4", "5/6", "1/1"]);
}

#[test]
fn rgba_feeds_each_field_from_its_own_channel() {
    let ops = Formulas::new();
    let lut = <u8 as GammaPixel<Formulas>>::make_lut(&ops);
    let out = RGBA { r: 1u8, g: 20, b: 3, a: 4 }.to_linear(&lut, &ops);
    assert_eq!(
        ops.texts_of(out),
        [
            format!("({} * 4/255)", entry(1, 255)),
            format!("({} * 4/255)", entry(20, 255)),
            format!("({} * 4/255)", entry(3, 255)),
            "4/255".to_string(),
        ]
    );
}

#[test]
fn bgra_feeds_each_field_from_its_own_channel() {
    let ops = Formulas::new();
    let lut = <u8 as GammaPixel<Formulas>>::make_lut(&ops);
    let out = BGRA { b: 3u8, g: 20, r: 1, a: 4 }.to_linear(&lut, &ops);
    let same = RGBA { r: 1u8, g: 20, b: 3, a: 4 }.to_linear(&lut, &ops);
    assert_eq!(ops.texts_of(out), ops.texts_of(same));
    assert_eq!(ops.text(out.r), format!("({} * 4/255)", entry(1, 255)));
    assert_eq!(ops.text(out.b), format!("({} * 4/255)", entry(3, 255)));
}

#[test]
fn rgb_and_bgr_are_opaque_and_unscaled() {
    let ops = Formulas::new();
    let lut = <u16 as GammaPixel<Formulas>>::make_lut(&ops);
    let expected =
        [entry(1000, 65535), entry(2000, 65535), entry(3000, 65535), "1/1".to_string()];
    let out = RGB { r: 1000u16, g: 2000, b: 3000 }.to_linear(&lut, &ops);
    assert_eq!(ops.texts_of(out), expected);
    assert_eq!((out.r, out.g, out.b), (lut[1000], lut[2000], lut[3000]));
    let out = BGR { b: 3000u16, g: 2000, r: 1000 }.to_linear(&lut, &ops);
    assert_eq!(ops.texts_of(out), expected);
}

#[test]
fn grey_alpha_scales_the_grey_by_its_alpha() {
    let ops = Formulas::new();
    let lut = <u8 as GammaPixel<Formulas>>::make_lut(&ops);
    let out = GreyAlpha(9u8, 200u8).to_linear(&lut, &ops);
    let g = format!("({} * 200/255)", entry(9, 255));
    assert_eq!(ops.texts_of(out), [g.clone(), g.clone(), g, "200/255".to_string()]);
    assert!(out.r == out.g && out.g == out.b);
}

#[test]
fn grey_is_opaque_and_unscaled() {
    let ops = Formulas::new();
    let lut = <u8 as GammaPixel<Formulas>>::make_lut(&ops);
    let out = Grey(9u8).to_linear(&lut, &ops);
    assert_eq!((out.r, out.g, out.b), (lut[9], lut[9], lut[9]));
    assert_eq!(ops.text(out.a), "1/1");
}

#[test]
fn a_bare_component_is_its_table_entry() {
    let ops = Formulas::new();
    let lut = <u8 as GammaPixel<Formulas>>::make_lut(&ops);
    let out: usize = GammaPixel::to_linear(&77u8, &lut, &ops);
    assert_eq!(out, lut[77]);
    assert_eq!(ops.text(out), entry(77, 255));
}

#[test]
fn linearize_all_reads_the_table_it_is_given() {
    let ops = Formulas::new();
    let lut: Vec<usize> = (0..256).map(|i| ops.ratio(i, 7)).collect();
    let pixels = [RGB { r: 0u8, g: 100, b: 255 }, RGB { r: 5, g: 5, b: 6 }];
    let out = linearize_all(&pixels, &lut, &ops);
    assert_eq!(out.len(), 2);
    assert_eq!(ops.texts_of(out[0]), ["0/7", "100/7", "255/7", "1/1"]);
    assert_eq!(ops.texts_of(out[1]), ["5/7", "5/7", "6/7", "1/1"]);
    let scalars: Vec<usize> = linearize_all(&[255u8, 0, 1], &lut, &ops);
    assert_eq!(scalars, vec![lut[255], lut[0], lut[1]]);
}

#[test]
fn to_glu_builds_the_table_of_the_component() {
    let ops = Formulas::new();
    let out = [0u8, 255, 13].to_glu(&ops);
    let texts: Vec<String> = out.iter().map(|&n| ops.text(n)).collect();
    assert_eq!(texts, vec![entry(0, 255), entry(255, 255), entry(13, 255)]);
    let out = [0u16, 65535, 13].to_glu(&ops);
    let texts: Vec<String> = out.iter().map(|&n| ops.text(n)).collect();
    assert_eq!(texts, vec![entry(0, 65535), entry(65535, 65535), entry(13, 65535)]);
}

#[test]
fn to_rgbaplu_builds_the_table_of_the_component() {
    let ops = Formulas::new();
    let out = [Grey(300u16), Grey(0)].to_rgbaplu(&ops);
    assert_eq!(out.len(), 2);
    let first = entry(300, 65535);
    let second = entry(0, 65535);
    assert_eq!(ops.texts_of(out[0]), [first.clone(), first.clone(), first, "1/1".to_string()]);
    assert_eq!(ops.texts_of(out[1]), [second.clone(), second.clone(), second, "1/1".to_string()]);
    let out = [GreyAlpha(1u8, 2u8)].to_rgbaplu(&ops);
    let g = format!("({} * 2/255)", entry(1, 255));
    assert_eq!(ops.texts_of(out[0]), [g.clone(), g.clone(), g, "2/255".to_string()]);
}

/// A four-bit sample held in the low half of a byte.
#[derive(Clone, Copy, Debug, PartialEq)]
struct Nibble(u8);

impl GammaComponent for Nibble {
    fn level(&self) -> usize {
        (self.0 & 15) as usize
    }

    fn max_level() -> usize {
        15
    }

    fn lemma_level_in_range(&self) {
    }

    fn max_value() -> usize {
        15
    }

    fn value(&self) -> usize {
        (self.0 & 15) as usize
    }

    fn to_linear<L: Copy>(&self, lut: &[L]) -> L {
        lut[(self.0 & 15) as usize]
    }
}

#[test]
fn an_encoding_of_the_callers_own() {
    let ops = Formulas::new();
    let lut = <Nibble as GammaPixel<Formulas>>::make_lut(&ops);
    assert_eq!(lut.len(), 16);
    assert_eq!(ops.text(lut[0]), "(0/15 : 1292/100)");
    assert_eq!(ops.text(lut[15]), "(((15/15 + 55/1000) : 1055/1000) ^ 24/10)");
    let out = [RGBA { r: Nibble(1), g: Nibble(2), b: Nibble(3), a: Nibble(15) }].to_rgbaplu(&ops);
    assert_eq!(
        ops.texts_of(out[0]),
        [
            format!("({} * 15/15)", entry(1, 15)),
            format!("({} * 15/15)", entry(2, 15)),
            format!("({} * 15/15)", entry(3, 15)),
            "15/15".to_string(),
        ]
    );
    let out = [Nibble(0), Nibble(9)].to_glu(&ops);
    let texts: Vec<String> = out.iter().map(|&n| ops.text(n)).collect();
    assert_eq!(texts, vec![entry(0, 15), entry(9, 15)]);
}
