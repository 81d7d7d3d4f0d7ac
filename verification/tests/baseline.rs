use pico_range::baseline::{
    BaselineFilter, DistanceSample, FilterConfig, SensorFault, StaticTopic,
};

fn config(initial: u64, delta: u64, max_reports: u8) -> FilterConfig {
    FilterConfig {
        initial_baseline_mm: initial,
        trigger_delta_mm: delta,
        max_consecutive_reports: max_reports,
    }
}

fn sample(mm: u64) -> Result<DistanceSample, SensorFault> {
    Ok(DistanceSample { millimeters: mm, measured_at: 0 })
}

#[test]
fn scenario_one_close_sample_reports_once() {
    // Baseline 8.0, samples 8.0, 8.0, 7.99, 7.7, threshold 0.2, all in
    // millimeters: only the last sample is more than the delta below.
    let mut filter = BaselineFilter::new(config(8000, 200, 10));
    assert!(filter.observe(sample(8000)).is_none());
    assert!(filter.observe(sample(8000)).is_none());
    assert!(filter.observe(sample(7990)).is_none());
    let event = filter.observe(sample(7700)).expect("fourth sample must report");
    assert_eq!(event.distance_mm, 7700);
    assert_eq!(event.topic, StaticTopic::Data);
    assert_eq!(filter.state.baseline_mm, 8000);
    assert_eq!(filter.state.consecutive_reports, 1);
}

#[test]
fn boundary_sample_does_not_report() {
    let mut filter = BaselineFilter::new(config(8000, 200, 10));
    // Exactly baseline minus delta: the boundary is exclusive.
    assert!(filter.observe(sample(7800)).is_none());
    assert_eq!(filter.state.baseline_mm, 8000);
    assert_eq!(filter.state.consecutive_reports, 0);
    // One millimeter further is a report.
    let event = filter.observe(sample(7799)).expect("just past the boundary must report");
    assert_eq!(event.distance_mm, 7799);
}

#[test]
fn rising_samples_track_baseline_without_events() {
    let mut filter = BaselineFilter::new(config(5000, 200, 10));
    for mm in [5000u64, 5100, 5250, 6000, 9000] {
        assert!(filter.observe(sample(mm)).is_none());
        assert_eq!(filter.state.baseline_mm, mm);
    }
    assert_eq!(filter.state.consecutive_reports, 0);
}

#[test]
fn rebaseline_after_ceiling_of_consecutive_reports() {
    let max_reports: u8 = 3;
    let mut filter = BaselineFilter::new(config(8000, 200, max_reports));
    // max_consecutive_reports + 1 identical close samples: every call
    // reports, and the last one re-baselines.
    for call in 1..=(max_reports as u64 + 1) {
        let event = filter.observe(sample(7000)).expect("every close sample must report");
        assert_eq!(event.distance_mm, 7000);
        if call <= max_reports as u64 {
            assert_eq!(filter.state.baseline_mm, 8000);
            assert_eq!(filter.state.consecutive_reports, call as u8);
        }
    }
    assert_eq!(filter.state.baseline_mm, 7000);
    assert_eq!(filter.state.consecutive_reports, 0);
}

#[test]
fn drift_up_resets_report_run() {
    let mut filter = BaselineFilter::new(config(8000, 200, 10));
    // Two reports leave a run of two on the counter...
    filter.observe(sample(7000)).expect("close sample must report");
    filter.observe(sample(7000)).expect("close sample must report");
    assert_eq!(filter.state.consecutive_reports, 2);
    // ... and a sample at or beyond the baseline re-baselines and
    // clears the run.
    assert!(filter.observe(sample(8500)).is_none());
    assert_eq!(filter.state.baseline_mm, 8500);
    assert_eq!(filter.state.consecutive_reports, 0);
}

#[test]
fn fault_changes_nothing() {
    let mut filter = BaselineFilter::new(config(8000, 200, 10));
    filter.observe(sample(7000)).expect("close sample must report");
    let before = filter.state;
    assert!(filter.observe(Err(SensorFault::NoEcho)).is_none());
    assert_eq!(filter.state, before);
    assert!(filter.observe(Err(SensorFault::Timeout)).is_none());
    assert_eq!(filter.state, before);
}

#[test]
fn fault_in_rising_stream_leaves_final_baseline_alone() {
    let rising = [5000u64, 5100, 5200, 5300];
    let mut with_fault = BaselineFilter::new(config(5000, 200, 10));
    let mut without_fault = BaselineFilter::new(config(5000, 200, 10));
    for (i, mm) in rising.iter().enumerate() {
        if i == 2 {
            assert!(with_fault.observe(Err(SensorFault::Timeout)).is_none());
        }
        assert!(with_fault.observe(sample(*mm)).is_none());
        assert!(without_fault.observe(sample(*mm)).is_none());
    }
    assert_eq!(with_fault.state, without_fault.state);
    assert_eq!(with_fault.state.baseline_mm, 5300);
}

#[test]
fn dead_zone_sample_changes_nothing() {
    let mut filter = BaselineFilter::new(config(8000, 200, 10));
    assert!(filter.observe(sample(7900)).is_none());
    assert_eq!(filter.state.baseline_mm, 8000);
    assert_eq!(filter.state.consecutive_reports, 0);
}

#[test]
fn equal_sample_keeps_baseline() {
    let mut filter = BaselineFilter::new(config(8000, 200, 10));
    assert!(filter.observe(sample(8000)).is_none());
    assert_eq!(filter.state.baseline_mm, 8000);
}
