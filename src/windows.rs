use vstd::prelude::*;

verus! {

/// Why an indicator cannot be evaluated on the inputs it was given.
#[derive(Clone, Copy, Debug, PartialEq, Eq, Structural)]
pub enum IndicatorError {
    /// The window holds fewer values than the estimator needs.
    InvalidWindow,
    /// The period is zero or longer than the series.
    InvalidPeriod,
    /// A regression range holds fewer than two points.
    InsufficientPoints,
    /// Series that are read side by side have different lengths.
    MismatchedLengths,
}

/// All lengths in `lens` are equal.
pub open spec fn all_equal(lens: Seq<usize>) -> bool {
    forall|i: int| 0 <= i < lens.len() ==> #[trigger] lens[i] == lens[0]
}

/// A rolling evaluation with this period over a series of this length is
/// possible: the period is at least one and at most the length.
pub open spec fn valid_period(len: int, period: int) -> bool {
    1 <= period <= len
}

/// How many windows of `period` values fit in a series of `len` values, one
/// per start index `0 ..= len - period`.
pub open spec fn window_count(len: int, period: int) -> int {
    len - period + 1
}

/// The index range `[start, end)` of the `k`-th window of a rolling
/// evaluation with `period`.
pub open spec fn rolling_window(period: int, k: int) -> (int, int) {
    (k, k + period)
}

/// The index range `[start, end)` that a single evaluation with `period`
/// reads: the last `period` values of the series.
pub open spec fn trailing_window(len: int, period: int) -> (int, int) {
    (len - period, len)
}

/// Every rolling window lies inside the series, and the last of them is the
/// trailing window, so the last output of a rolling evaluation is computed
/// from the same values as a single evaluation with the same period.
pub proof fn lemma_last_rolling_window_is_trailing(len: int, period: int)
    requires
        valid_period(len, period),
    ensures
        forall|k: int|
            0 <= k < window_count(len, period) ==> {
                let w = #[trigger] rolling_window(period, k);
                0 <= w.0 && w.0 < w.1 && w.1 <= len && w.1 - w.0 == period
            },
        rolling_window(period, window_count(len, period) - 1) == trailing_window(len, period),
{
}

/// Checks that a window of `len` values can be evaluated by a single-window
/// estimator, which needs at least one value.
pub fn check_window(len: usize) -> (r: Result<(), IndicatorError>)
    ensures
        r is Ok <==> len >= 1,
        r is Err ==> r == Err::<(), IndicatorError>(IndicatorError::InvalidWindow),
{
    if len == 0 {
        Err(IndicatorError::InvalidWindow)
    } else {
        Ok(())
    }
}

/// Checks that a window of `len` values holds at least `min` values, the
/// least that an estimator with a fixed lookback needs, and at least one.
pub fn check_min_window(len: usize, min: usize) -> (r: Result<(), IndicatorError>)
    ensures
        r is Ok <==> len >= min && len >= 1,
        r is Err ==> r == Err::<(), IndicatorError>(IndicatorError::InvalidWindow),
{
    if len == 0 || len < min {
        Err(IndicatorError::InvalidWindow)
    } else {
        Ok(())
    }
}

/// Checks that a window holds exactly the `size` values that an estimator
/// with a fixed window reads.
pub fn check_window_size(len: usize, size: usize) -> (r: Result<(), IndicatorError>)
    ensures
        r is Ok <==> len == size,
        r is Err ==> r == Err::<(), IndicatorError>(IndicatorError::InvalidWindow),
{
    if len != size {
        Err(IndicatorError::InvalidWindow)
    } else {
        Ok(())
    }
}

/// The common length of series that are read side by side: `MismatchedLengths`
/// when two of them differ, `InvalidWindow` when they are all empty (or there
/// are none).
pub fn common_length(lens: &[usize]) -> (r: Result<usize, IndicatorError>)
    ensures
        !all_equal(lens@) ==> r == Err::<usize, IndicatorError>(IndicatorError::MismatchedLengths),
        all_equal(lens@) && lens@.len() >= 1 && lens@[0] >= 1 ==> r == Ok::<usize, IndicatorError>(
            lens@[0],
        ),
        all_equal(lens@) && (lens@.len() == 0 || lens@[0] == 0) ==> r == Err::<
            usize,
            IndicatorError,
        >(IndicatorError::InvalidWindow),
{
    if lens.len() == 0 {
        return Err(IndicatorError::InvalidWindow);
    }
    let first = lens[0];
    let mut i: usize = 1;
    while i < lens.len()
        invariant
            1 <= i <= lens@.len(),
            first == lens@[0],
            forall|k: int| 0 <= k < i ==> #[trigger] lens@[k] == lens@[0],
        decreases lens@.len() - i,
    {
        if lens[i] != first {
            return Err(IndicatorError::MismatchedLengths);
        }
        i = i + 1;
    }
    if first == 0 {
        Err(IndicatorError::InvalidWindow)
    } else {
        Ok(first)
    }
}

/// Checks that a recurrence's smoothing period is at least one.
pub fn check_period(period: usize) -> (r: Result<(), IndicatorError>)
    ensures
        r is Ok <==> period >= 1,
        r is Err ==> r == Err::<(), IndicatorError>(IndicatorError::InvalidPeriod),
{
    if period == 0 {
        Err(IndicatorError::InvalidPeriod)
    } else {
        Ok(())
    }
}

/// The number of outputs of a rolling evaluation with `period` over a series
/// of `len` values, or `InvalidPeriod` when the period is zero or exceeds the
/// length.
pub fn bulk_output_len(len: usize, period: usize) -> (r: Result<usize, IndicatorError>)
    ensures
        valid_period(len as int, period as int) ==> r == Ok::<usize, IndicatorError>(
            window_count(len as int, period as int) as usize,
        ),
        !valid_period(len as int, period as int) ==> r == Err::<usize, IndicatorError>(
            IndicatorError::InvalidPeriod,
        ),
{
    if period == 0 || period > len {
        Err(IndicatorError::InvalidPeriod)
    } else {
        Ok(len - period + 1)
    }
}

/// The number of points in the regression range `[start, end)`, or
/// `InsufficientPoints` when it holds fewer than two.
pub fn fit_point_count(start: usize, end: usize) -> (r: Result<usize, IndicatorError>)
    ensures
        end >= start + 2 ==> r == Ok::<usize, IndicatorError>((end - start) as usize),
        end < start + 2 ==> r == Err::<usize, IndicatorError>(IndicatorError::InsufficientPoints),
{
    if end < start || end - start < 2 {
        Err(IndicatorError::InsufficientPoints)
    } else {
        Ok(end - start)
    }
}

} // verus!
