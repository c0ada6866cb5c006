use vstd::prelude::*;

use crate::arithmetic::{dot_prefix, sum_prefix, SampleArithmetic};
use crate::detrend_error::{reserve_buffer, DetrendError};

verus! {

/// The abscissas of a signal of length `n`: the sample value of each index.
pub open spec fn indices_of<T: Copy, A: SampleArithmetic<T>>(n: nat) -> Seq<T> {
    Seq::new(n, |i: int| A::spec_from_usize(i as usize))
}

/// The slope of the least-squares line through `s`, with `N` its length,
/// `Sx`, `Sy` the sums of indices and samples, and `Sxy`, `Sxx` the sums of
/// index times sample and of squared indices:
/// `(N*Sxy - Sx*Sy) / (N*Sxx - Sx*Sx)`, each side one fused multiply-add.
pub open spec fn fitted_slope<T: Copy, A: SampleArithmetic<T>>(s: Seq<T>) -> T {
    let xs = indices_of::<T, A>(s.len());
    let n = A::spec_from_usize(s.len() as usize);
    let sum_x = sum_prefix::<T, A>(xs, s.len());
    let neg_sum_x = A::spec_negate(sum_x);
    A::spec_divide(
        A::spec_mul_add(
            n,
            dot_prefix::<T, A>(xs, s, s.len()),
            A::spec_times(neg_sum_x, sum_prefix::<T, A>(s, s.len())),
        ),
        A::spec_mul_add(n, dot_prefix::<T, A>(xs, xs, s.len()), A::spec_times(neg_sum_x, sum_x)),
    )
}

/// The intercept of the least-squares line through `s`:
/// `(Sy - slope*Sx) / N`, its numerator one fused multiply-add.
pub open spec fn fitted_intercept<T: Copy, A: SampleArithmetic<T>>(s: Seq<T>) -> T {
    let xs = indices_of::<T, A>(s.len());
    A::spec_divide(
        A::spec_mul_add(
            A::spec_negate(fitted_slope::<T, A>(s)),
            sum_prefix::<T, A>(xs, s.len()),
            sum_prefix::<T, A>(s, s.len()),
        ),
        A::spec_from_usize(s.len() as usize),
    )
}

/// `s` with its least-squares line subtracted: sample `i` becomes
/// `s[i] - (slope*i + intercept)`, the fitted value one fused multiply-add.
pub open spec fn least_squares_detrended<T: Copy, A: SampleArithmetic<T>>(s: Seq<T>) -> Seq<T> {
    Seq::new(
        s.len(),
        |i: int|
            A::spec_minus(
                s[i],
                A::spec_mul_add(
                    fitted_slope::<T, A>(s),
                    A::spec_from_usize(i as usize),
                    fitted_intercept::<T, A>(s),
                ),
            ),
    )
}

/// Subtracts from the non-empty `signal` its least-squares line, writing the
/// result into the empty buffer `out`; `indices` is an empty buffer that
/// holds the abscissas meanwhile. This cannot fail. A zero denominator in the
/// slope (a single sample) is not guarded: the result is whatever the
/// division gives.
pub fn least_squares_into<T: Copy, A: SampleArithmetic<T>>(
    signal: &[T],
    arith: &A,
    out: Vec<T>,
    indices: Vec<T>,
) -> (r: Vec<T>)
    requires
        signal@.len() > 0,
        out@.len() == 0,
        indices@.len() == 0,
    ensures
        r@ == least_squares_detrended::<T, A>(signal@),
{
    let mut out = out;
    let mut indices = indices;
    let n_u: usize = signal.len();
    let mut i: usize = 0;
    while i < n_u
        invariant
            i <= n_u,
            indices@ =~= indices_of::<T, A>(n_u as nat).take(i as int),
        decreases n_u - i,
    {
        indices.push(arith.from_usize(i));
        i = i + 1;
    }
    assert(indices@ =~= indices_of::<T, A>(n_u as nat));

    let mut sum_xy: T = arith.zero();
    let mut sum_x: T = arith.zero();
    let mut sum_y: T = arith.zero();
    let mut sum_xx: T = arith.zero();
    let mut k: usize = 0;
    while k < n_u
        invariant
            n_u == signal@.len(),
            indices@ == indices_of::<T, A>(n_u as nat),
            k <= n_u,
            sum_xy == dot_prefix::<T, A>(indices@, signal@, k as nat),
            sum_x == sum_prefix::<T, A>(indices@, k as nat),
            sum_y == sum_prefix::<T, A>(signal@, k as nat),
            sum_xx == dot_prefix::<T, A>(indices@, indices@, k as nat),
        decreases n_u - k,
    {
        sum_xy = arith.mul_add(indices[k], signal[k], sum_xy);
        sum_x = arith.plus(sum_x, indices[k]);
        sum_y = arith.plus(sum_y, signal[k]);
        sum_xx = arith.mul_add(indices[k], indices[k], sum_xx);
        k = k + 1;
    }

    let n: T = arith.from_usize(n_u);
    let neg_sum_x: T = arith.negate(sum_x);
    let numerator: T = arith.mul_add(n, sum_xy, arith.times(neg_sum_x, sum_y));
    let denominator: T = arith.mul_add(n, sum_xx, arith.times(neg_sum_x, sum_x));
    let slope: T = arith.divide(numerator, denominator);
    let intercept: T = arith.divide(arith.mul_add(arith.negate(slope), sum_x, sum_y), n);
    assert(slope == fitted_slope::<T, A>(signal@));
    assert(intercept == fitted_intercept::<T, A>(signal@));

    let mut j: usize = 0;
    while j < n_u
        invariant
            n_u == signal@.len(),
            indices@ == indices_of::<T, A>(n_u as nat),
            j <= n_u,
            slope == fitted_slope::<T, A>(signal@),
            intercept == fitted_intercept::<T, A>(signal@),
            out@ =~= least_squares_detrended::<T, A>(signal@).take(j as int),
        decreases n_u - j,
    {
        let fitted: T = arith.mul_add(slope, indices[j], intercept);
        out.push(arith.minus(signal[j], fitted));
        j = j + 1;
    }
    assert(out@ =~= least_squares_detrended::<T, A>(signal@));
    out
}

/// Subtracts from `signal` the straight line fitted to it by least squares,
/// with the index of each sample as its abscissa.
///
/// An empty signal gives an empty result. The only failure is the
/// reservation of the two buffers (result and abscissas): once both succeed
/// the result is `Ok`, as `least_squares_into` states, whatever the samples
/// and the denominator.
pub fn detrend_least_squares<T: Copy, A: SampleArithmetic<T>>(signal: &[T], arith: &A) -> (r:
    Result<Vec<T>, DetrendError>)
    ensures
        signal@.len() == 0 ==> r is Ok,
        r is Ok ==> r->Ok_0@ == least_squares_detrended::<T, A>(signal@),
        r is Err ==> r->Err_0 == DetrendError::Allocation(signal@.len() as usize),
{
    let n_u: usize = signal.len();
    if n_u == 0 {
        let empty: Vec<T> = Vec::new();
        assert(empty@ =~= least_squares_detrended::<T, A>(signal@));
        return Ok(empty);
    }
    let out: Vec<T> = match reserve_buffer(n_u) {
        Ok(v) => v,
        Err(e) => return Err(e),
    };
    match reserve_buffer(n_u) {
        Ok(indices) => Ok(least_squares_into(signal, arith, out, indices)),
        Err(e) => Err(e),
    }
}

} // verus!
