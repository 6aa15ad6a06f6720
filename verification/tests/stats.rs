use trading_stats::models::TradingData;
use trading_stats::float_bits::round_to_4_decimals;
use trading_stats::query::{query_stats, StatsError};

fn batch_bits(values: &[f64]) -> Vec<u64> {
    values.iter().map(|v| v.to_bits()).collect()
}

fn fl(bits: u64) -> f64 {
    f64::from_bits(bits)
}

const SCENARIO_A: [f64; 11] = [2.4, 1.0, 2.0, 3.0, 1.0, 2.0, 3.0, 1.0, 2.0, 3.0, 1.0];
const SCENARIO_B: [f64; 11] = [1.1, 2.7, 3.2, 4.9, 5.2, 11.7, 1.8, 8.4, 9.2, 12.4, 1.1];

#[test]
fn scenario_a_smallest_scale_succeeds() {
    let mut data = TradingData::new();
    data.add_batch(&batch_bits(&SCENARIO_A));
    let result = data.get_stats(1);
    assert!(result.is_some());
}

#[test]
fn scenario_b_exact_statistics() {
    let mut data = TradingData::new();
    data.add_batch(&batch_bits(&SCENARIO_B));
    let result = data.get_stats(1).unwrap();
    assert_eq!(fl(result.min), 1.1);
    assert_eq!(fl(result.max), 12.4);
    assert_eq!(fl(result.last), 1.1);
    assert_eq!(fl(result.avg), 6.06);
    assert_eq!(fl(result.var), 15.1644);
}

#[test]
fn scenario_c_insufficient_data_at_larger_scale() {
    let mut data = TradingData::new();
    data.add_batch(&batch_bits(&SCENARIO_B));
    assert!(data.get_stats(2).is_none());
    let result = query_stats(Some(&data), 2);
    assert_eq!(result, Err(StatsError::InsufficientData));
}

#[test]
fn scenario_d_unknown_series() {
    let result = query_stats(None, 1);
    assert_eq!(result, Err(StatsError::UnknownSeries));
}

#[test]
fn query_gating_at_window_boundary() {
    let mut data = TradingData::new();
    data.add_batch(&batch_bits(&[1.0; 9]));
    assert!(data.get_stats(1).is_none());
    assert_eq!(query_stats(Some(&data), 1), Err(StatsError::InsufficientData));
    data.add_batch(&batch_bits(&[2.0]));
    assert!(data.get_stats(1).is_some());
    assert!(query_stats(Some(&data), 1).is_ok());
    for k in 2..=8 {
        assert!(data.get_stats(k).is_none());
    }
}

#[test]
fn empty_window_is_insufficient() {
    let data = TradingData::new();
    for k in 1..=8 {
        assert!(data.get_stats(k).is_none());
    }
}

#[test]
fn empty_batch_is_a_noop() {
    let mut data = TradingData::new();
    data.add_batch(&batch_bits(&SCENARIO_B));
    let before = data.get_stats(1).unwrap();
    data.add_batch(&Vec::new());
    let after = data.get_stats(1).unwrap();
    assert_eq!(before, after);
}

#[test]
fn aggregates_match_direct_scan() {
    // Two appends; the table must reflect a full recomputation over the
    // final window contents, equal to a direct most-recent-first scan.
    let first = [4.0, 9.5, 0.25, 7.125, 3.5, 8.0];
    let second = [1.5, 2.25, 6.75, 0.125, 5.0, 3.125, 9.0];
    let mut data = TradingData::new();
    data.add_batch(&batch_bits(&first));
    data.add_batch(&batch_bits(&second));

    let mut all: Vec<f64> = first.to_vec();
    all.extend_from_slice(&second);
    let mut min = f64::MAX;
    let mut max = 0.0f64;
    let mut sum = 0.0f64;
    let mut sum_sq = 0.0f64;
    for v in all.iter().rev().take(10) {
        min = min.min(*v);
        max = max.max(*v);
        sum += *v;
        sum_sq += *v * *v;
    }
    let avg = sum / 10.0;
    let var = (sum_sq / 10.0) - avg * avg;

    let result = data.get_stats(1).unwrap();
    assert_eq!(fl(result.min), min);
    assert_eq!(fl(result.max), max);
    assert_eq!(fl(result.last), 9.0);
    assert_eq!(fl(result.avg), (avg * 10000.0).round() / 10000.0);
    assert_eq!(fl(result.var), (var * 10000.0).round() / 10000.0);
}

#[test]
fn variance_identity_within_rounding() {
    let mut data = TradingData::new();
    data.add_batch(&batch_bits(&SCENARIO_B));
    let result = data.get_stats(1).unwrap();
    let mut sum_sq = 0.0f64;
    for v in SCENARIO_B.iter().rev().take(10) {
        sum_sq += *v * *v;
    }
    let avg = fl(result.avg);
    let var = fl(result.var);
    assert!((var + avg * avg - sum_sq / 10.0).abs() < 1e-4);
}

#[test]
fn repeated_reads_are_identical() {
    let mut data = TradingData::new();
    data.add_batch(&batch_bits(&SCENARIO_B));
    let first = data.get_stats(1).unwrap();
    let second = data.get_stats(1).unwrap();
    assert_eq!(first, second);
    let third = query_stats(Some(&data), 1).unwrap();
    assert_eq!(first, third);
}

#[test]
fn negative_only_window_keeps_zero_max_sentinel() {
    // The running max is seeded at 0.0, so a window of only negative
    // observations reports a max of 0.0; the min is unaffected.
    let mut data = TradingData::new();
    data.add_batch(&batch_bits(&[-1.0; 10]));
    let result = data.get_stats(1).unwrap();
    assert_eq!(fl(result.max), 0.0);
    assert_eq!(fl(result.min), -1.0);
    assert_eq!(fl(result.last), -1.0);
}

#[test]
fn rounding_to_four_decimals() {
    assert_eq!(fl(round_to_4_decimals(1.23456f64.to_bits())), 1.2346);
    assert_eq!(fl(round_to_4_decimals((-1.23456f64).to_bits())), -1.2346);
    assert_eq!(fl(round_to_4_decimals(2.0f64.to_bits())), 2.0);
    assert_eq!(fl(round_to_4_decimals(0.00004f64.to_bits())), 0.0);
    assert_eq!(fl(round_to_4_decimals(6.06004f64.to_bits())), 6.06);
}

#[test]
fn default_is_a_fresh_series() {
    let data = TradingData::default();
    assert!(data.get_stats(1).is_none());
}
