use vstd::prelude::*;

mod arithmetic;
mod constant;
mod detrend_error;
mod least_squares;

pub use arithmetic::{dot_prefix, sum_prefix, SampleArithmetic};
pub use constant::{constant_detrended, constant_into, detrend_constant, mean_of};
pub use detrend_error::{decimal, digit_char, error_text, DetrendError};
pub use least_squares::{
    detrend_least_squares, fitted_intercept, fitted_slope, indices_of, least_squares_detrended,
    least_squares_into,
};

verus! {

/// The trend model that is estimated and removed from a signal.
#[derive(Copy, Clone, Debug, PartialEq, Eq, PartialOrd, Ord, Hash, Structural)]
pub enum DetrendingMethod {
    /// Removes the mean of the signal (its DC offset).
    Constant,
    /// Removes the straight line fitted to the signal by least squares.
    LeastSquares,
}

/// `s` with the trend that `method` selects removed.
pub open spec fn detrended<T: Copy, A: SampleArithmetic<T>>(
    s: Seq<T>,
    method: DetrendingMethod,
) -> Seq<T> {
    match method {
        DetrendingMethod::Constant => constant_detrended::<T, A>(s),
        DetrendingMethod::LeastSquares => least_squares_detrended::<T, A>(s),
    }
}

/// Removes from `signal` the trend that `method` selects, with the sample
/// arithmetic of `arith`. The only failure is the reservation of a buffer:
/// once that succeeds the result is `Ok`, as `constant_into` and
/// `least_squares_into` state.
pub fn detrend<T: Copy, A: SampleArithmetic<T>>(
    signal: &[T],
    method: DetrendingMethod,
    arith: &A,
) -> (r: Result<Vec<T>, DetrendError>)
    ensures
        signal@.len() == 0 ==> r is Ok,
        r is Ok ==> r->Ok_0@ == detrended::<T, A>(signal@, method),
        r is Err ==> r->Err_0 == DetrendError::Allocation(signal@.len() as usize),
{
    match method {
        DetrendingMethod::Constant => detrend_constant(signal, arith),
        DetrendingMethod::LeastSquares => detrend_least_squares(signal, arith),
    }
}

/// Detrending keeps the length of the signal, whatever the method and the
/// sample arithmetic.
pub proof fn detrended_keeps_length<T: Copy, A: SampleArithmetic<T>>(
    s: Seq<T>,
    method: DetrendingMethod,
)
    ensures
        detrended::<T, A>(s, method).len() == s.len(),
{
}

/// Detrending an empty signal gives an empty signal, whatever the method.
pub proof fn detrended_empty<T: Copy, A: SampleArithmetic<T>>(method: DetrendingMethod)
    ensures
        detrended::<T, A>(Seq::<T>::empty(), method) == Seq::<T>::empty(),
{
    assert(detrended::<T, A>(Seq::<T>::empty(), method) =~= Seq::<T>::empty());
}

} // verus!
