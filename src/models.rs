use vstd::prelude::*;

verus! {

/// The central-tendency estimator that an indicator applies to a window.
#[derive(Clone, Copy, Debug, PartialEq, Eq, Structural)]
pub enum ConstantModelType {
    SimpleMovingAverage,
    SmoothedMovingAverage,
    ExponentialMovingAverage,
    SimpleMovingMedian,
    SimpleMovingMode,
}

/// The dispersion estimator that an indicator applies to a window.
#[derive(Clone, Copy, Debug, PartialEq, Eq, Structural)]
pub enum DeviationModel {
    StandardDeviation,
    MeanAbsoluteDeviation,
    MedianAbsoluteDeviation,
    ModeAbsoluteDeviation,
    UlcerIndex,
}

/// The smoothing rule of a moving average.
#[derive(Clone, Copy, Debug, PartialEq, Eq, Structural)]
pub enum MovingAverageType {
    Simple,
    Smoothed,
    Exponential,
}

/// The side of a trade.
#[derive(Clone, Copy, Debug, PartialEq, Eq, Structural)]
pub enum Position {
    Long,
    Short,
}

} // verus!
