//! The number system that linear light is computed in.
use vstd::prelude::*;

verus! {

/// The arithmetic of linear-light numbers.
///
/// The library is written for numbers with fractions, which it never looks
/// inside: it decides which operation is applied to what, in which order and
/// with which constants, and leaves the operations themselves to the caller.
/// Its contracts say of every result which operations, on which arguments,
/// it came from.
///
/// Every operation accepts every argument. With floating-point numbers the
/// six operations are a division of two integers, `+`, `/`, `*`, a power and
/// `<=`.
pub trait Arithmetic {
    /// A linear-light number, or a gamma-encoded one on the unit scale.
    type Number: Copy;

    /// The number `numerator / denominator`.
    fn ratio(&self, numerator: usize, denominator: usize) -> Self::Number;

    /// `a + b`.
    fn sum(&self, a: Self::Number, b: Self::Number) -> Self::Number;

    /// `a / b`.
    fn quotient(&self, a: Self::Number, b: Self::Number) -> Self::Number;

    /// `a * b`.
    fn product(&self, a: Self::Number, b: Self::Number) -> Self::Number;

    /// `base` raised to `exponent`.
    fn power(&self, base: Self::Number, exponent: Self::Number) -> Self::Number;

    /// Whether `a <= b`.
    fn at_most(&self, a: Self::Number, b: Self::Number) -> bool;
}

/// `out` may be what `ratio` gives for `numerator / denominator`.
pub open spec fn is_ratio<A: Arithmetic>(
    ops: &A,
    numerator: usize,
    denominator: usize,
    out: A::Number,
) -> bool {
    call_ensures(A::ratio, (ops, numerator, denominator), out)
}

/// `out` may be what `sum` gives for `a + b`.
pub open spec fn is_sum<A: Arithmetic>(
    ops: &A,
    a: A::Number,
    b: A::Number,
    out: A::Number,
) -> bool {
    call_ensures(A::sum, (ops, a, b), out)
}

/// `out` may be what `quotient` gives for `a / b`.
pub open spec fn is_quotient<A: Arithmetic>(
    ops: &A,
    a: A::Number,
    b: A::Number,
    out: A::Number,
) -> bool {
    call_ensures(A::quotient, (ops, a, b), out)
}

/// `out` may be what `product` gives for `a * b`.
pub open spec fn is_product<A: Arithmetic>(
    ops: &A,
    a: A::Number,
    b: A::Number,
    out: A::Number,
) -> bool {
    call_ensures(A::product, (ops, a, b), out)
}

/// `out` may be what `power` gives for `base` raised to `exponent`.
pub open spec fn is_power<A: Arithmetic>(
    ops: &A,
    base: A::Number,
    exponent: A::Number,
    out: A::Number,
) -> bool {
    call_ensures(A::power, (ops, base, exponent), out)
}

/// `out` may be what `at_most` answers for `a <= b`.
pub open spec fn is_at_most<A: Arithmetic>(
    ops: &A,
    a: A::Number,
    b: A::Number,
    out: bool,
) -> bool {
    call_ensures(A::at_most, (ops, a, b), out)
}

/// No operation has two different results on the same arguments.
pub open spec fn deterministic<A: Arithmetic>(ops: &A) -> bool {
    &&& forall|n: usize, d: usize, x: A::Number, y: A::Number|
        #![trigger is_ratio(ops, n, d, x), is_ratio(ops, n, d, y)]
        is_ratio(ops, n, d, x) && is_ratio(ops, n, d, y) ==> x == y
    &&& forall|a: A::Number, b: A::Number, x: A::Number, y: A::Number|
        #![trigger is_sum(ops, a, b, x), is_sum(ops, a, b, y)]
        is_sum(ops, a, b, x) && is_sum(ops, a, b, y) ==> x == y
    &&& forall|a: A::Number, b: A::Number, x: A::Number, y: A::Number|
        #![trigger is_quotient(ops, a, b, x), is_quotient(ops, a, b, y)]
        is_quotient(ops, a, b, x) && is_quotient(ops, a, b, y) ==> x == y
    &&& forall|a: A::Number, b: A::Number, x: A::Number, y: A::Number|
        #![trigger is_product(ops, a, b, x), is_product(ops, a, b, y)]
        is_product(ops, a, b, x) && is_product(ops, a, b, y) ==> x == y
    &&& forall|a: A::Number, b: A::Number, x: A::Number, y: A::Number|
        #![trigger is_power(ops, a, b, x), is_power(ops, a, b, y)]
        is_power(ops, a, b, x) && is_power(ops, a, b, y) ==> x == y
    &&& forall|a: A::Number, b: A::Number, x: bool, y: bool|
        #![trigger is_at_most(ops, a, b, x), is_at_most(ops, a, b, y)]
        is_at_most(ops, a, b, x) && is_at_most(ops, a, b, y) ==> x == y
}

} // verus!
