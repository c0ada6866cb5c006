use vstd::prelude::*;

use crate::arithmetic::{sum_prefix, SampleArithmetic};
use crate::detrend_error::{reserve_buffer, DetrendError};

verus! {

/// The mean of `s`: its sum, accumulated from zero in index order, divided by
/// its length.
pub open spec fn mean_of<T: Copy, A: SampleArithmetic<T>>(s: Seq<T>) -> T {
    A::spec_divide(sum_prefix::<T, A>(s, s.len()), A::spec_from_usize(s.len() as usize))
}

/// `s` with its mean subtracted from each sample.
pub open spec fn constant_detrended<T: Copy, A: SampleArithmetic<T>>(s: Seq<T>) -> Seq<T> {
    Seq::new(s.len(), |i: int| A::spec_minus(s[i], mean_of::<T, A>(s)))
}

/// Subtracts the mean of the non-empty `signal` from each of its samples,
/// writing the result into the empty buffer `out`. This cannot fail.
pub fn constant_into<T: Copy, A: SampleArithmetic<T>>(signal: &[T], arith: &A, out: Vec<T>) -> (r:
    Vec<T>)
    requires
        signal@.len() > 0,
        out@.len() == 0,
    ensures
        r@ == constant_detrended::<T, A>(signal@),
{
    let mut out = out;
    let n: usize = signal.len();
    let mut sum: T = arith.zero();
    let mut i: usize = 0;
    while i < n
        invariant
            n == signal@.len(),
            i <= n,
            sum == sum_prefix::<T, A>(signal@, i as nat),
        decreases n - i,
    {
        sum = arith.plus(sum, signal[i]);
        i = i + 1;
    }
    let mean: T = arith.divide(sum, arith.from_usize(n));
    assert(mean == mean_of::<T, A>(signal@));
    let mut j: usize = 0;
    while j < n
        invariant
            n == signal@.len(),
            j <= n,
            mean == mean_of::<T, A>(signal@),
            out@ =~= constant_detrended::<T, A>(signal@).take(j as int),
        decreases n - j,
    {
        out.push(arith.minus(signal[j], mean));
        j = j + 1;
    }
    assert(out@ =~= constant_detrended::<T, A>(signal@));
    out
}

/// Subtracts the mean of `signal` from each of its samples.
///
/// An empty signal gives an empty result, with no mean computed. The only
/// failure is the reservation of the result buffer: once that succeeds the
/// result is `Ok`, as `constant_into` states.
pub fn detrend_constant<T: Copy, A: SampleArithmetic<T>>(signal: &[T], arith: &A) -> (r: Result<
    Vec<T>,
    DetrendError,
>)
    ensures
        signal@.len() == 0 ==> r is Ok,
        r is Ok ==> r->Ok_0@ == constant_detrended::<T, A>(signal@),
        r is Err ==> r->Err_0 == DetrendError::Allocation(signal@.len() as usize),
{
    let n: usize = signal.len();
    if n == 0 {
        let empty: Vec<T> = Vec::new();
        assert(empty@ =~= constant_detrended::<T, A>(signal@));
        return Ok(empty);
    }
    match reserve_buffer(n) {
        Ok(out) => Ok(constant_into(signal, arith, out)),
        Err(e) => Err(e),
    }
}

} // verus!
