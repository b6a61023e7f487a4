use ti_engine::{
    bulk_output_len, check_min_window, check_period, check_window, check_window_size, common_length,
    fit_point_count, half_open_segments, IndicatorError,
};
use ti_engine::{ConstantModelType, DeviationModel, MovingAverageType, Position};

#[test]
fn empty_window_is_rejected() {
    assert_eq!(check_window(0), Err(IndicatorError::InvalidWindow));
}

#[test]
fn one_value_window_is_accepted() {
    assert_eq!(check_window(1), Ok(()));
    assert_eq!(check_window(250), Ok(()));
}

#[test]
fn rolling_output_count_example() {
    assert_eq!(bulk_output_len(6, 3), Ok(4));
}

#[test]
fn period_equal_to_length_gives_one_output() {
    assert_eq!(bulk_output_len(5, 5), Ok(1));
}

#[test]
fn period_of_one_gives_one_output_per_value() {
    assert_eq!(bulk_output_len(7, 1), Ok(7));
}

#[test]
fn zero_period_is_rejected() {
    assert_eq!(bulk_output_len(5, 0), Err(IndicatorError::InvalidPeriod));
    assert_eq!(bulk_output_len(0, 0), Err(IndicatorError::InvalidPeriod));
}

#[test]
fn period_longer_than_series_is_rejected() {
    assert_eq!(bulk_output_len(3, 4), Err(IndicatorError::InvalidPeriod));
    assert_eq!(bulk_output_len(0, 1), Err(IndicatorError::InvalidPeriod));
}

#[test]
fn largest_series_length() {
    assert_eq!(bulk_output_len(usize::MAX, 1), Ok(usize::MAX));
    assert_eq!(bulk_output_len(usize::MAX, usize::MAX), Ok(1));
}

#[test]
fn two_points_can_be_fitted() {
    assert_eq!(fit_point_count(0, 2), Ok(2));
    assert_eq!(fit_point_count(4, 14), Ok(10));
}

#[test]
fn fewer_than_two_points_cannot_be_fitted() {
    assert_eq!(fit_point_count(3, 4), Err(IndicatorError::InsufficientPoints));
    assert_eq!(fit_point_count(3, 3), Err(IndicatorError::InsufficientPoints));
}

#[test]
fn reversed_range_cannot_be_fitted() {
    assert_eq!(fit_point_count(9, 2), Err(IndicatorError::InsufficientPoints));
    assert_eq!(fit_point_count(usize::MAX, 0), Err(IndicatorError::InsufficientPoints));
}

#[test]
fn model_selectors_are_plain_values() {
    let c = ConstantModelType::SimpleMovingMode;
    let d = DeviationModel::UlcerIndex;
    let m = MovingAverageType::Exponential;
    let p = Position::Short;
    let (c2, d2, m2, p2) = (c, d, m, p);
    assert_eq!(c, c2);
    assert_eq!(d, d2);
    assert_eq!(m, m2);
    assert_eq!(p, p2);
    assert_ne!(c, ConstantModelType::SimpleMovingMedian);
    assert_ne!(d, DeviationModel::StandardDeviation);
    assert_ne!(m, MovingAverageType::Simple);
    assert_ne!(p, Position::Long);
}

#[test]
fn short_window_for_a_lookback_is_rejected() {
    assert_eq!(check_min_window(13, 14), Err(IndicatorError::InvalidWindow));
    assert_eq!(check_min_window(0, 0), Err(IndicatorError::InvalidWindow));
    assert_eq!(check_min_window(14, 14), Ok(()));
    assert_eq!(check_min_window(3, 0), Ok(()));
}

#[test]
fn fixed_window_must_match_exactly() {
    assert_eq!(check_window_size(20, 20), Ok(()));
    assert_eq!(check_window_size(21, 20), Err(IndicatorError::InvalidWindow));
    assert_eq!(check_window_size(19, 20), Err(IndicatorError::InvalidWindow));
}

#[test]
fn side_by_side_series_share_a_length() {
    assert_eq!(common_length(&[5, 5, 5]), Ok(5));
    assert_eq!(common_length(&[7]), Ok(7));
}

#[test]
fn side_by_side_series_of_different_lengths_are_rejected() {
    assert_eq!(common_length(&[5, 5, 4]), Err(IndicatorError::MismatchedLengths));
    assert_eq!(common_length(&[0, 3]), Err(IndicatorError::MismatchedLengths));
}

#[test]
fn empty_side_by_side_series_are_rejected() {
    assert_eq!(common_length(&[0, 0]), Err(IndicatorError::InvalidWindow));
    assert_eq!(common_length(&[]), Err(IndicatorError::InvalidWindow));
}

#[test]
fn bad_period_for_three_series_is_rejected() {
    let n = common_length(&[30, 30, 30]).unwrap();
    assert_eq!(bulk_output_len(n, 0), Err(IndicatorError::InvalidPeriod));
    assert_eq!(bulk_output_len(n, 31), Err(IndicatorError::InvalidPeriod));
    assert_eq!(bulk_output_len(n, 10), Ok(21));
    assert_eq!(check_min_window(n, 3 * 10), Ok(()));
    assert_eq!(check_min_window(n, 3 * 11), Err(IndicatorError::InvalidWindow));
}

#[test]
fn segment_starts_become_half_open_ranges() {
    assert_eq!(
        half_open_segments(&vec![0, 2, 4, 9], 15),
        Some(vec![(0, 2), (2, 4), (4, 9), (9, 15)])
    );
    assert_eq!(half_open_segments(&vec![0], 1), Some(vec![(0, 1)]));
}

#[test]
fn malformed_segment_starts_are_refused() {
    assert_eq!(half_open_segments(&vec![], 5), None);
    assert_eq!(half_open_segments(&vec![1, 3], 5), None);
    assert_eq!(half_open_segments(&vec![0, 3, 3], 5), None);
    assert_eq!(half_open_segments(&vec![0, 4, 2], 5), None);
    assert_eq!(half_open_segments(&vec![0, 5], 5), None);
    assert_eq!(half_open_segments(&vec![0], 0), None);
}

#[test]
fn smoothing_period_must_be_positive() {
    assert_eq!(check_period(0), Err(IndicatorError::InvalidPeriod));
    assert_eq!(check_period(1), Ok(()));
    assert_eq!(check_period(usize::MAX), Ok(()));
}
