use geiger::counter::CounterToken;
use geiger::sampler::Report;
use geiger::sampler::Sampler;
use geiger::sampler::LOG_PERIOD;
use geiger::sampler::SAMPLE_INTERVAL_MS;
use geiger::window::SampleHistory;
use geiger::window::WINDOW_CAPACITY;

const CPM_RATIO: f32 = 153.8;

fn cpm_of(report: &Report) -> f32 {
    (report.window_sum as f32 / report.collected_seconds as f32) * 60.0
}

fn dose_of(report: &Report) -> f32 {
    cpm_of(report) / CPM_RATIO
}

/// Drives `sampler` through the raw reads in `tokens`, returning every report
/// emitted on the way.
fn drive(sampler: &mut Sampler, tokens: &[u32]) -> Vec<Report> {
    let mut reports = Vec::new();
    for &raw in tokens {
        if let Some(report) = sampler.step(CounterToken::from_raw(raw)) {
            reports.push(report);
        }
    }
    reports
}

#[test]
fn constants_match_design() {
    assert_eq!(SAMPLE_INTERVAL_MS, 100);
    assert_eq!(WINDOW_CAPACITY, 600);
    assert_eq!(LOG_PERIOD, 10);
}

#[test]
fn delta_of_rising_counter() {
    let earlier = CounterToken::from_raw(100);
    let later = CounterToken::from_raw(117);
    assert_eq!(later.delta_since(&earlier), 17);
}

#[test]
fn delta_of_identical_tokens_is_zero() {
    let first = CounterToken::from_raw(42);
    let second = CounterToken::from_raw(42);
    assert_eq!(second.delta_since(&first), 0);
}

#[test]
fn delta_clamps_on_counter_reset() {
    let earlier = CounterToken::from_raw(500);
    let later = CounterToken::from_raw(3);
    assert_eq!(later.delta_since(&earlier), 0);
}

#[test]
fn delta_spans_full_range() {
    let earlier = CounterToken::from_raw(0);
    let later = CounterToken::from_raw(u32::MAX);
    assert_eq!(later.delta_since(&earlier), u32::MAX);
    assert_eq!(later.value(), u32::MAX);
}

#[test]
fn fresh_window_sums_to_zero() {
    let history = SampleHistory::new();
    assert_eq!(history.sum(), 0);
}

#[test]
fn window_sum_adds_recorded_deltas() {
    let mut history = SampleHistory::new();
    history.record(3);
    history.record(4);
    history.record(5);
    assert_eq!(history.sum(), 12);
}

#[test]
fn window_sum_of_largest_deltas_needs_no_clamp() {
    let mut history = SampleHistory::new();
    for _ in 0..WINDOW_CAPACITY {
        history.record(u32::MAX);
    }
    assert_eq!(history.sum(), WINDOW_CAPACITY as u64 * u32::MAX as u64);
}

#[test]
fn window_overwrites_oldest_after_full_lap() {
    let mut history = SampleHistory::new();
    history.record(5);
    for _ in 0..WINDOW_CAPACITY {
        history.record(0);
    }
    // WINDOW_CAPACITY + 1 writes in all: the last lands on the slot the
    // first filled, so the 5 is gone.
    assert_eq!(history.sum(), 0);
}

#[test]
fn window_keeps_a_full_lap_exactly() {
    let mut history = SampleHistory::new();
    history.record(5);
    for _ in 0..WINDOW_CAPACITY - 1 {
        history.record(0);
    }
    // Exactly WINDOW_CAPACITY writes: the first is still present.
    assert_eq!(history.sum(), 5);
}

#[test]
fn reports_come_every_log_period_ticks() {
    let mut sampler = Sampler::new(CounterToken::from_raw(0));
    for tick in 1..=39u32 {
        let report = sampler.step(CounterToken::from_raw(tick));
        assert_eq!(report.is_some(), tick % 10 == 0);
    }
    assert_eq!(sampler.tick(), 39);
}

#[test]
fn report_carries_total_sum_and_seconds() {
    let mut sampler = Sampler::new(CounterToken::from_raw(7));
    // Nine quiet ticks, then two pulses right before the first report.
    let mut reports = drive(&mut sampler, &[7, 7, 7, 7, 7, 7, 7, 7, 7, 9]);
    assert_eq!(reports.len(), 1);
    let report = reports.remove(0);
    assert_eq!(report.total, 9);
    assert_eq!(report.window_sum, 2);
    assert_eq!(report.collected_seconds, 1);
}

#[test]
fn collected_seconds_ramp_midway() {
    let mut sampler = Sampler::new(CounterToken::from_raw(0));
    let tokens = vec![0u32; 300];
    let reports = drive(&mut sampler, &tokens);
    assert_eq!(reports.len(), 30);
    assert_eq!(reports[0].collected_seconds, 1);
    assert_eq!(reports[14].collected_seconds, 15);
    assert_eq!(reports[29].collected_seconds, 30);
}

#[test]
fn twenty_pulses_in_first_second_give_cpm_1200() {
    // Scenario: the summed deltas across the first ten ticks equal twenty.
    let mut sampler = Sampler::new(CounterToken::from_raw(0));
    let tokens = [2u32, 4, 6, 8, 10, 12, 14, 16, 18, 20];
    let reports = drive(&mut sampler, &tokens);
    assert_eq!(reports.len(), 1);
    assert_eq!(reports[0].window_sum, 20);
    assert_eq!(reports[0].collected_seconds, 1);
    let cpm = cpm_of(&reports[0]);
    let dose = dose_of(&reports[0]);
    assert_eq!(cpm, 1200.0);
    assert_eq!(format!("{:.1}", cpm), "1200.0");
    assert_eq!(format!("{:.3}", dose), "7.802");
    assert!((dose - 7.802).abs() < 0.001);
}

#[test]
fn no_pulses_give_zero_cpm_forever() {
    // Scenario: no pulses ever arrive; every report shows 0.0 CPM.
    let mut sampler = Sampler::new(CounterToken::from_raw(123));
    let tokens = vec![123u32; 1300];
    let reports = drive(&mut sampler, &tokens);
    assert_eq!(reports.len(), 130);
    for report in &reports {
        assert_eq!(report.window_sum, 0);
        assert_eq!(format!("{:.1}", cpm_of(report)), "0.0");
        assert_eq!(format!("{:.3}", dose_of(report)), "0.000");
    }
}

#[test]
fn external_reset_mid_run_stores_zero() {
    // Scenario: the register is cleared mid-run, so a read comes back below
    // the previous snapshot; that tick contributes nothing and nothing
    // faults.
    let mut sampler = Sampler::new(CounterToken::from_raw(0));
    let tokens = [100u32, 200, 300, 5, 6, 7, 8, 9, 10, 11];
    let reports = drive(&mut sampler, &tokens);
    assert_eq!(reports.len(), 1);
    // Deltas: 100, 100, 100, 0 (reset), then 1 per tick.
    assert_eq!(reports[0].window_sum, 306);
    assert_eq!(reports[0].total, 11);
}

#[test]
fn collected_seconds_hold_at_sixty_past_the_window() {
    // Scenario: from tick 600 on, the window length stays at 60 seconds.
    let mut sampler = Sampler::new(CounterToken::from_raw(0));
    let tokens = vec![0u32; 1000];
    let reports = drive(&mut sampler, &tokens);
    assert_eq!(reports.len(), 100);
    assert_eq!(reports[58].collected_seconds, 59);
    assert_eq!(reports[59].collected_seconds, 60);
    assert_eq!(reports[60].collected_seconds, 60);
    assert_eq!(reports[99].collected_seconds, 60);
}

#[test]
fn old_deltas_slide_out_of_the_window() {
    // Two pulses in the very first tick, silence afterwards: the pulses sit
    // in the window for 600 ticks and are overwritten on tick 601.
    let mut sampler = Sampler::new(CounterToken::from_raw(0));
    let tokens = vec![2u32; 610];
    let reports = drive(&mut sampler, &tokens);
    assert_eq!(reports.len(), 61);
    assert_eq!(reports[0].window_sum, 2);
    assert_eq!(reports[59].window_sum, 2);
    assert_eq!(reports[60].window_sum, 0);
}

#[test]
fn full_window_average_cpm() {
    // Twenty pulses in the first second, then silence: after a full minute
    // the same pulses average to 20 CPM over 60 seconds.
    let mut sampler = Sampler::new(CounterToken::from_raw(0));
    let mut tokens = vec![20u32; 600];
    for (i, slot) in tokens.iter_mut().enumerate().take(10) {
        *slot = 2 * (i as u32 + 1);
    }
    let reports = drive(&mut sampler, &tokens);
    assert_eq!(reports.len(), 60);
    let last = &reports[59];
    assert_eq!(last.window_sum, 20);
    assert_eq!(last.collected_seconds, 60);
    assert_eq!(format!("{:.1}", cpm_of(last)), "20.0");
    assert_eq!(format!("{:.3}", dose_of(last)), "0.130");
}
