//! Telemetry windows, auto-scaling, eviction and the hover resolver.
//!
//! Values are fixed-point hundredths of the metric's unit; timestamps are
//! milliseconds.

use cryo_cooler_controller_lib::hover::calc_hover_index;
use cryo_cooler_controller_lib::window::{ChartGroup, MonitoringChart, MonitoringData};

fn chart(min: i64, max: i64) -> MonitoringChart {
    MonitoringChart::new(Vec::new(), "TEC Temp".to_owned(), min, max, "C".to_owned())
}

#[test]
fn auto_scale_expands_above_by_five_percent_of_span() {
    // Bounds [0, 20.00]; a sample of 25.00 expands the top to
    // 25 + (25 - 0) * 0.05 = 26.25.
    let mut chart = chart(0, 2000);
    chart.push_data(0, 2500);
    assert_eq!(chart.bounds(), (0, 2625));
    // A later 10.00 is inside [0, 26.25] and leaves the bounds unchanged.
    chart.push_data(1000, 1000);
    assert_eq!(chart.bounds(), (0, 2625));
}

#[test]
fn auto_scale_expands_below_symmetrically() {
    let mut chart = chart(0, 2000);
    chart.push_data(0, -100);
    // -1.00 - (0 - -1.00) * 0.05 = -1.05
    assert_eq!(chart.bounds(), (-105, 2000));
}

#[test]
fn bounds_never_shrink() {
    let mut chart = chart(0, 2000);
    chart.push_data(0, 2500);
    chart.push_data(1000, 0);
    chart.push_data(2000, 2000);
    assert_eq!(chart.bounds(), (0, 2625));
}

#[test]
fn time_horizon_eviction_measures_against_newest_sample() {
    // Samples at t = 0 s, 100 s, 200 s, 400 s. Appending t = 400 s evicts
    // the t = 0 s sample (400 s old, over the 300 s horizon) while t = 100 s
    // (exactly 300 s old) and t = 200 s remain.
    let mut chart = chart(0, 2000);
    chart.push_data(0, 1);
    chart.push_data(100_000, 2);
    chart.push_data(200_000, 3);
    chart.push_data(400_000, 4);
    assert_eq!(chart.data_len(), 3);
    assert_eq!(chart.sample_at(0), (400_000, 4));
    assert_eq!(chart.sample_at(1), (200_000, 3));
    assert_eq!(chart.sample_at(2), (100_000, 2));
}

#[test]
fn out_of_order_sample_evicts_newer_tail() {
    // A sample older than the retained ones makes the older entries'
    // age negative; the eviction loop drops them from the back.
    let mut chart = chart(0, 2000);
    chart.push_data(500_000, 1);
    chart.push_data(100_000, 2);
    assert_eq!(chart.data_len(), 1);
    assert_eq!(chart.sample_at(0), (100_000, 2));
}

#[test]
fn cache_flag_cleared_on_mutation() {
    let mut chart = chart(0, 2000);
    assert!(!chart.is_cache_valid());
    chart.mark_cache_drawn();
    assert!(chart.is_cache_valid());
    chart.push_data(0, 100);
    assert!(!chart.is_cache_valid());
}

#[test]
fn new_keeps_given_samples() {
    let samples = vec![(2000i64, 10i64), (1000, 20)];
    let chart = MonitoringChart::new(samples, "Humidity".to_owned(), 4500, 5500, "%".to_owned());
    assert_eq!(chart.data_len(), 2);
    assert_eq!(chart.sample_at(0), (2000, 10));
    assert_eq!(chart.sample_at(1), (1000, 20));
    assert_eq!(chart.bounds(), (4500, 5500));
}

#[test]
fn group_default_seed_ranges() {
    let group = ChartGroup::default();
    assert_eq!(group.tec_temp_chart.bounds(), (0, 2000));
    assert_eq!(group.pcb_temp_chart.bounds(), (2000, 3000));
    assert_eq!(group.humidty_chart.bounds(), (4500, 5500));
    assert_eq!(group.dew_point_chart.bounds(), (1000, 2000));
    assert_eq!(group.tec_voltage_chart.bounds(), (1100, 1300));
    assert_eq!(group.tec_current_chart.bounds(), (0, 1000));
    assert_eq!(group.tec_power_chart.bounds(), (0, 10000));
    assert_eq!(group.tec_temp_chart.data_len(), 0);
}

#[test]
fn group_default_labels_and_units() {
    let group = ChartGroup::default();
    assert_eq!(group.tec_temp_chart.title().as_str(), "TEC Temp");
    assert_eq!(group.tec_temp_chart.unit().as_str(), "C");
    assert_eq!(group.humidty_chart.title().as_str(), "Humidity");
    assert_eq!(group.humidty_chart.unit().as_str(), "%");
    assert_eq!(group.tec_power_chart.title().as_str(), "TEC Power Level");
    assert_eq!(group.tec_voltage_chart.unit().as_str(), "V");
    assert_eq!(group.tec_current_chart.unit().as_str(), "A");
}

#[test]
fn group_update_feeds_every_window() {
    let mut group = ChartGroup::default();
    let data = MonitoringData {
        timestamp: 1_000,
        tec_temperature: 550,
        pcb_temperature: 2400,
        humidity: 5000,
        dew_point_temperature: 1200,
        tec_voltage: 1200,
        tec_current: 300,
        tec_power_level: 75,
    };
    group.update(data);
    assert_eq!(group.tec_temp_chart.sample_at(0), (1_000, 550));
    assert_eq!(group.pcb_temp_chart.sample_at(0), (1_000, 2400));
    assert_eq!(group.humidty_chart.sample_at(0), (1_000, 5000));
    assert_eq!(group.dew_point_chart.sample_at(0), (1_000, 1200));
    assert_eq!(group.tec_voltage_chart.sample_at(0), (1_000, 1200));
    assert_eq!(group.tec_current_chart.sample_at(0), (1_000, 300));
    // Power level is stored in hundredths of a percent.
    assert_eq!(group.tec_power_chart.sample_at(0), (1_000, 7500));
}

#[test]
fn hover_inverts_storage_order() {
    // 10 samples, viewport x = 0, width = 100: the left edge resolves to the
    // oldest retained sample (index 9), the right edge to the newest (0).
    assert_eq!(calc_hover_index(Some(0), 10, 100, 0), Some(9));
    assert_eq!(calc_hover_index(Some(100), 10, 100, 0), Some(0));
    assert_eq!(calc_hover_index(Some(50), 10, 100, 0), Some(5));
}

#[test]
fn hover_clamps_at_the_edges() {
    // Left of the viewport saturates to the oldest sample, far right to the
    // newest.
    assert_eq!(calc_hover_index(Some(-40), 10, 100, 20), Some(9));
    assert_eq!(calc_hover_index(Some(1_000), 10, 100, 0), Some(0));
}

#[test]
fn hover_needs_samples_and_a_cursor() {
    assert_eq!(calc_hover_index(Some(50), 0, 100, 0), None);
    assert_eq!(calc_hover_index(None, 10, 100, 0), None);
}

#[test]
fn hover_rounds_to_nearest_sample() {
    // One sample per 10 px: x = 14 -> raw 1 (1.4 rounds down) -> index 9;
    // x = 15 -> raw 2 (1.5 rounds up) -> index 8.
    assert_eq!(calc_hover_index(Some(14), 10, 100, 0), Some(9));
    assert_eq!(calc_hover_index(Some(15), 10, 100, 0), Some(8));
}
