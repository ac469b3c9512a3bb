use temperature_monitor::control::{cadence_due, ControlLoop, SensorError};
use temperature_monitor::diagnostics::{Diagnostic, Level};
use temperature_monitor::temperature::Celsius;

fn degrees(d: i32) -> Celsius {
    Celsius { sixteenths: d * 16 }
}

#[test]
fn indicator_active_above_threshold() {
    // Threshold 30 °C, sample 31.0 °C: the indicator goes active and the
    // info line quotes both values.
    let control = ControlLoop::new();
    let out = control.handle_sample(&Ok(degrees(31)));
    assert_eq!(out.indicator, Some(true));
    assert_eq!(out.diagnostics.len(), 1);
    assert_eq!(out.diagnostics[0].level(), Level::Info);
    assert_eq!(
        out.diagnostics[0].message(),
        "Temperature: 31 °C, Threshold: 30 °C"
    );
}

#[test]
fn indicator_inactive_on_equality() {
    // Threshold 30 °C, sample 30.0 °C: equality does not trigger.
    let control = ControlLoop::new();
    let out = control.handle_sample(&Ok(degrees(30)));
    assert_eq!(out.indicator, Some(false));
    assert_eq!(out.diagnostics.len(), 1);
    assert_eq!(
        out.diagnostics[0].message(),
        "Temperature: 30 °C, Threshold: 30 °C"
    );
}

#[test]
fn indicator_active_one_sixteenth_above() {
    let control = ControlLoop::new();
    let out = control.handle_sample(&Ok(Celsius { sixteenths: 30 * 16 + 1 }));
    assert_eq!(out.indicator, Some(true));
}

#[test]
fn out_of_range_reading_still_compared() {
    // A successful read of 130 °C: error-level "out of range" diagnostic,
    // and the indicator is still evaluated against 130 vs the threshold.
    let control = ControlLoop::new();
    let out = control.handle_sample(&Ok(degrees(130)));
    assert_eq!(out.indicator, Some(true));
    assert_eq!(out.diagnostics.len(), 2);
    assert_eq!(out.diagnostics[0].level(), Level::Info);
    assert_eq!(
        out.diagnostics[0].message(),
        "Temperature: 130 °C, Threshold: 30 °C"
    );
    assert_eq!(out.diagnostics[1], Diagnostic::SensorOutOfRange);
    assert_eq!(out.diagnostics[1].level(), Level::Error);
    assert_eq!(out.diagnostics[1].message(), "Sensor reading is out of range.");
}

#[test]
fn read_failure_reported_indicator_untouched() {
    let control = ControlLoop::new();
    let out = control.handle_sample(&Err(SensorError));
    assert_eq!(out.indicator, None);
    assert_eq!(out.diagnostics.len(), 1);
    assert_eq!(out.diagnostics[0], Diagnostic::SensorReadFailed);
    assert_eq!(out.diagnostics[0].level(), Level::Error);
    assert_eq!(
        out.diagnostics[0].message(),
        "Error: failed to read the temperature sensor."
    );
}

#[test]
fn fractional_reading_quoted_exactly() {
    let control = ControlLoop::new();
    let out = control.handle_sample(&Ok(Celsius { sixteenths: 30 * 16 + 1 }));
    assert_eq!(
        out.diagnostics[0].message(),
        "Temperature: 30.0625 °C, Threshold: 30 °C"
    );
}

#[test]
fn down_press_lowers_threshold_once() {
    // One debounced press of the down button: the threshold drops by
    // exactly one degree, reported at info level.
    let mut control = ControlLoop::new();
    let diagnostics = control.service_buttons(true, false);
    assert_eq!(control.threshold.value, degrees(29));
    assert_eq!(diagnostics.len(), 1);
    assert_eq!(diagnostics[0].level(), Level::Info);
    assert_eq!(diagnostics[0].message(), "Decreased alarm threshold to 29 °C.");
}

#[test]
fn up_press_raises_threshold_once() {
    let mut control = ControlLoop::new();
    let diagnostics = control.service_buttons(false, true);
    assert_eq!(control.threshold.value, degrees(31));
    assert_eq!(diagnostics.len(), 1);
    assert_eq!(diagnostics[0].message(), "Increased alarm threshold to 31 °C.");
}

#[test]
fn no_press_no_change_no_recheck() {
    let mut control = ControlLoop::new();
    control.threshold.value = degrees(-45);
    // Nothing pressed: an out-of-range threshold that was not touched this
    // pass draws no warning.
    let diagnostics = control.service_buttons(false, false);
    assert_eq!(control.threshold.value, degrees(-45));
    assert!(diagnostics.is_empty());
}

#[test]
fn both_buttons_apply_sequentially_down_first() {
    // Both buttons pressed in the same pass: down's adjustment resolves
    // first, then up's; both deltas land and the threshold nets out.
    let mut control = ControlLoop::new();
    let diagnostics = control.service_buttons(true, true);
    assert_eq!(control.threshold.value, degrees(30));
    assert_eq!(diagnostics.len(), 2);
    assert_eq!(
        diagnostics[0],
        Diagnostic::ThresholdDecreased { threshold: degrees(29) }
    );
    assert_eq!(
        diagnostics[1],
        Diagnostic::ThresholdIncreased { threshold: degrees(30) }
    );
    assert_eq!(diagnostics[0].message(), "Decreased alarm threshold to 29 °C.");
    assert_eq!(diagnostics[1].message(), "Increased alarm threshold to 30 °C.");
}

#[test]
fn threshold_driven_out_of_range_warns_and_stays() {
    // Repeated decrements drive the threshold from 30 °C to -45 °C: the
    // final press draws the warning citing the bounds, and the threshold
    // remains -45, not clamped.
    let mut control = ControlLoop::new();
    let mut last = Vec::new();
    for _ in 0..75 {
        last = control.service_buttons(true, false);
    }
    assert_eq!(control.threshold.value, degrees(-45));
    assert_eq!(last.len(), 2);
    assert_eq!(last[0].message(), "Decreased alarm threshold to -45 °C.");
    assert_eq!(last[1], Diagnostic::ThresholdOutOfRange);
    assert_eq!(last[1].level(), Level::Warning);
    assert_eq!(
        last[1].message(),
        "Threshold is out of range -40 °C to 125 °C."
    );
}

#[test]
fn warning_starts_at_first_out_of_range_value() {
    let mut control = ControlLoop::new();
    // 30 °C down to -40 °C: 70 presses, all still in range.
    for _ in 0..70 {
        let diagnostics = control.service_buttons(true, false);
        assert_eq!(diagnostics.len(), 1);
    }
    assert_eq!(control.threshold.value, degrees(-40));
    // The 71st press reaches -41 °C and draws the first warning.
    let diagnostics = control.service_buttons(true, false);
    assert_eq!(control.threshold.value, degrees(-41));
    assert_eq!(diagnostics.len(), 2);
    assert_eq!(diagnostics[1], Diagnostic::ThresholdOutOfRange);
}

#[test]
fn full_pass_keeps_emission_order() {
    // A tick and both buttons in one pass: the tick's diagnostics come
    // first, then down's, then up's, matching the order the loop runs.
    let mut control = ControlLoop::new();
    let out = control.pass(500, &Some(Ok(degrees(130))), true, true);
    assert_eq!(out.indicator, Some(true));
    assert_eq!(out.guard_delay_millis, 1);
    assert_eq!(control.threshold.value, degrees(30));
    let rendered: Vec<String> = out.diagnostics.iter().map(|d| d.message()).collect();
    assert_eq!(
        rendered,
        vec![
            "Temperature: 130 °C, Threshold: 30 °C".to_string(),
            "Sensor reading is out of range.".to_string(),
            "Decreased alarm threshold to 29 °C.".to_string(),
            "Increased alarm threshold to 30 °C.".to_string(),
        ]
    );
}

#[test]
fn quiet_pass_decides_nothing() {
    // No tick, no press: nothing to do, no guard delay.
    let mut control = ControlLoop::new();
    let out = control.pass(501, &None, false, false);
    assert_eq!(out.indicator, None);
    assert_eq!(out.guard_delay_millis, 0);
    assert!(out.diagnostics.is_empty());
    assert_eq!(control.threshold.value, degrees(30));
}

#[test]
fn cadence_fires_on_multiples_of_500() {
    assert!(cadence_due(0));
    assert!(cadence_due(500));
    assert!(cadence_due(1000));
    assert!(!cadence_due(1));
    assert!(!cadence_due(499));
    assert!(!cadence_due(501));
    assert!(!cadence_due(999));
}

#[test]
fn guard_delay_gives_one_sample_per_window() {
    // A fast simulated clock: the loop polls the cadence test three times within
    // every millisecond.  With the 1 ms guard delay after a sample, each
    // 500 ms window samples exactly once.
    let mut samples = 0;
    let mut now: u64 = 0;
    let mut polls_this_millisecond = 0;
    while now < 1500 {
        if cadence_due(now) {
            samples += 1;
            now += 1;  // the guard delay moves past the firing millisecond
            polls_this_millisecond = 0;
            continue;
        }
        polls_this_millisecond += 1;
        if polls_this_millisecond == 3 {
            now += 1;
            polls_this_millisecond = 0;
        }
    }
    assert_eq!(samples, 3);

    // Without the guard the same schedule double-counts: every poll of the
    // firing millisecond fires again.
    let mut unguarded_samples = 0;
    let mut now: u64 = 0;
    let mut polls_this_millisecond = 0;
    while now < 1500 {
        if cadence_due(now) {
            unguarded_samples += 1;
        }
        polls_this_millisecond += 1;
        if polls_this_millisecond == 3 {
            now += 1;
            polls_this_millisecond = 0;
        }
    }
    assert_eq!(unguarded_samples, 9);
}
