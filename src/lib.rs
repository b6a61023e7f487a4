//! Verified core of a technical-analysis toolkit: the model selectors that
//! every indicator takes, and the window geometry and input checks that
//! decide whether an indicator can be evaluated at all, and the layout of
//! the segments that a trend breakdown produces.

mod models;
mod segments;
mod windows;

pub use models::{ConstantModelType, DeviationModel, MovingAverageType, Position};
pub use segments::half_open_segments;
pub use windows::{
    bulk_output_len, check_min_window, check_period, check_window, check_window_size, common_length,
    fit_point_count, IndicatorError,
};
