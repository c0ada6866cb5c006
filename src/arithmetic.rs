use vstd::prelude::*;

verus! {

/// The arithmetic on samples of type `T` that detrending needs.
///
/// An implementation fixes the number format (its width and rounding); the
/// detrending routines fix which operations are applied to which values, and
/// in what order. Each operation must give a result that depends on its
/// operands alone: the spec functions name those results, so that what a
/// routine returns can be stated as one expression over them. For IEEE-754
/// arithmetic this holds up to NaN results, whose sign and payload bits may
/// differ between two evaluations on the same operands; the contracts that
/// speak of these names hold of the other values bit for bit.
pub trait SampleArithmetic<T: Copy> {
    /// What `zero` returns.
    spec fn spec_zero() -> T;

    /// What `from_usize` returns for `i`.
    spec fn spec_from_usize(i: usize) -> T;

    /// What `plus` returns for `a` and `b`.
    spec fn spec_plus(a: T, b: T) -> T;

    /// What `minus` returns for `a` and `b`.
    spec fn spec_minus(a: T, b: T) -> T;

    /// What `negate` returns for `a`.
    spec fn spec_negate(a: T) -> T;

    /// What `times` returns for `a` and `b`.
    spec fn spec_times(a: T, b: T) -> T;

    /// What `divide` returns for `a` and `b`.
    spec fn spec_divide(a: T, b: T) -> T;

    /// What `mul_add` returns for `a`, `b` and `c`.
    spec fn spec_mul_add(a: T, b: T, c: T) -> T;

    /// The additive identity.
    fn zero(&self) -> (r: T)
        ensures
            r == Self::spec_zero(),
    ;

    /// The sample value of the integer `i` (an index, or a length).
    fn from_usize(&self, i: usize) -> (r: T)
        ensures
            r == Self::spec_from_usize(i),
    ;

    /// `a + b`.
    fn plus(&self, a: T, b: T) -> (r: T)
        ensures
            r == Self::spec_plus(a, b),
    ;

    /// `a - b`.
    fn minus(&self, a: T, b: T) -> (r: T)
        ensures
            r == Self::spec_minus(a, b),
    ;

    /// `-a`.
    fn negate(&self, a: T) -> (r: T)
        ensures
            r == Self::spec_negate(a),
    ;

    /// `a * b`.
    fn times(&self, a: T, b: T) -> (r: T)
        ensures
            r == Self::spec_times(a, b),
    ;

    /// `a / b`.
    fn divide(&self, a: T, b: T) -> (r: T)
        ensures
            r == Self::spec_divide(a, b),
    ;

    /// `a * b + c`, rounded once.
    fn mul_add(&self, a: T, b: T, c: T) -> (r: T)
        ensures
            r == Self::spec_mul_add(a, b, c),
    ;
}

/// The sum of the first `k` samples of `s`, accumulated from zero in index
/// order.
pub open spec fn sum_prefix<T: Copy, A: SampleArithmetic<T>>(s: Seq<T>, k: nat) -> T
    decreases k,
{
    if k == 0 {
        A::spec_zero()
    } else {
        A::spec_plus(sum_prefix::<T, A>(s, (k - 1) as nat), s[k - 1])
    }
}

/// The sum of `xs[i] * ys[i]` over the first `k` indices, each product
/// added to the running sum by one fused multiply-add.
pub open spec fn dot_prefix<T: Copy, A: SampleArithmetic<T>>(xs: Seq<T>, ys: Seq<T>, k: nat) -> T
    decreases k,
{
    if k == 0 {
        A::spec_zero()
    } else {
        A::spec_mul_add(xs[k - 1], ys[k - 1], dot_prefix::<T, A>(xs, ys, (k - 1) as nat))
    }
}

} // verus!
