//! The control loop's decisions.
//!
//! The loop runs forever, one pass per scheduler iteration: the cadence test
//! fires on every millisecond value divisible by 500 and triggers a sensor
//! read, the reading drives the indicator and an info line, then each button
//! whose raw signal reads pressed is debounced and moves the threshold, and
//! finally a changed threshold is re-checked against the sensor's range.
//! A 1 ms guard delay after each tick keeps a fast pass from satisfying the
//! modulo test twice within the same millisecond.
//!
//! The decisions live here; the caller owns the clock, the sensor bus, the
//! pins and the diagnostic sink, performs the waits, and feeds the results
//! back in as plain values.

use vstd::prelude::*;
use vstd::arithmetic::div_mod::lemma_fundamental_div_mod;
use vstd::arithmetic::div_mod::lemma_mod_multiples_vanish;
use vstd::arithmetic::div_mod::lemma_small_mod;
use crate::diagnostics::Diagnostic;
use crate::temperature::Celsius;
use crate::threshold::{ButtonDirection, Threshold, spec_adjusted};

verus! {

/// Milliseconds between cadence ticks: the sensor is sampled twice a second,
/// phase-locked to the clock's epoch.
pub const CADENCE_MILLIS: u64 = 500;

/// The suspension after a tick that moves the clock past the millisecond
/// that satisfied the cadence test.
pub const GUARD_DELAY_MILLIS: u64 = 1;

/// A sensor read that failed at the bus: reported, never retried within the
/// tick; the next cadence tick reads again.
#[derive(Clone, Copy, PartialEq, Eq, Structural, Debug)]
pub struct SensorError;

/// Whether a millisecond value is a cadence tick.
pub open spec fn spec_cadence_due(now_millis: u64) -> bool {
    now_millis % CADENCE_MILLIS == 0
}

/// The cadence test: fires exactly on the millisecond values divisible by
/// 500, aligning sampling to the clock's epoch rather than to loop start.
pub fn cadence_due(now_millis: u64) -> (due: bool)
    ensures
        due == spec_cadence_due(now_millis),
{
    now_millis % CADENCE_MILLIS == 0
}

/// Law: the cadence fires for exactly one millisecond value per 500 ms window,
/// so the 1 ms guard delay — which moves the clock strictly past the firing
/// millisecond — makes re-checking the cadence within the same window a no-op:
/// one window, one sample, however often the loop polls.
pub proof fn lemma_cadence_fires_once_per_window(tick: u64, later: u64)
    requires
        spec_cadence_due(tick),
        tick < later < tick + CADENCE_MILLIS,
    ensures
        !spec_cadence_due(later),
{
    let t = tick as int;
    let l = later as int;
    let offset = l - t;
    lemma_fundamental_div_mod(t, CADENCE_MILLIS as int);
    lemma_mod_multiples_vanish(t / (CADENCE_MILLIS as int), offset, CADENCE_MILLIS as int);
    lemma_small_mod(offset as nat, CADENCE_MILLIS as nat);
}

/// What a cadence tick decided: how to drive the indicator, and what to
/// report.
pub struct TickOutcome {
    /// `Some(level)` when the read succeeded: the level to set the indicator
    /// to.  `None` when the read failed: the indicator is left alone.
    pub indicator: Option<bool>,
    /// The diagnostics of the tick, in emission order.
    pub diagnostics: Vec<Diagnostic>,
}

/// The indicator level a tick's reading calls for: active exactly when the
/// reading strictly exceeds the threshold, untouched when the read failed.
pub open spec fn spec_indicator(threshold: Celsius, reading: Result<Celsius, SensorError>) -> Option<
    bool,
> {
    match reading {
        Result::Ok(t) => Some(t.sixteenths > threshold.sixteenths),
        Result::Err(_) => None,
    }
}

/// The diagnostics of one cadence tick, in emission order: on success the
/// reading beside the threshold, then an error when the reading lies outside
/// the sensor's range; on a bus failure only the read error.
pub open spec fn spec_tick_diagnostics(
    threshold: Celsius,
    reading: Result<Celsius, SensorError>,
) -> Seq<Diagnostic> {
    match reading {
        Result::Ok(t) => if t.spec_in_sensor_range() {
            seq![Diagnostic::Temperature { reading: t, threshold }]
        } else {
            seq![
                Diagnostic::Temperature { reading: t, threshold },
                Diagnostic::SensorOutOfRange,
            ]
        },
        Result::Err(_) => seq![Diagnostic::SensorReadFailed],
    }
}

/// The threshold after servicing the two buttons of one pass: a debounced
/// down press lowers it one degree, then a debounced up press raises it one
/// degree.
pub open spec fn spec_serviced_threshold(sixteenths: int, down: bool, up: bool) -> int {
    let after_down = if down {
        spec_adjusted(sixteenths, ButtonDirection::Down)
    } else {
        sixteenths
    };
    if up {
        spec_adjusted(after_down, ButtonDirection::Up)
    } else {
        after_down
    }
}

/// The diagnostics of one pass's button servicing, in emission order: an
/// info line per applied press — down first, quoting the threshold it left —
/// then a warning when a press left the threshold outside the sensor's
/// range.  An unchanged threshold is never re-checked.
pub open spec fn spec_button_diagnostics(sixteenths: int, down: bool, up: bool) -> Seq<
    Diagnostic,
> {
    let after_down = if down {
        spec_adjusted(sixteenths, ButtonDirection::Down)
    } else {
        sixteenths
    };
    let after_up = spec_serviced_threshold(sixteenths, down, up);
    let presses: Seq<Diagnostic> = if down {
        seq![
            Diagnostic::ThresholdDecreased {
                threshold: Celsius { sixteenths: after_down as i32 },
            },
        ]
    } else {
        Seq::empty()
    };
    let presses = if up {
        presses + seq![
            Diagnostic::ThresholdIncreased {
                threshold: Celsius { sixteenths: after_up as i32 },
            },
        ]
    } else {
        presses
    };
    if (down || up) && !(Celsius { sixteenths: after_up as i32 }).spec_in_sensor_range() {
        presses + seq![Diagnostic::ThresholdOutOfRange]
    } else {
        presses
    }
}

/// Everything one pass of the loop decided.
pub struct PassOutcome {
    /// `Some(level)` when a tick's read succeeded: the level to set the
    /// indicator to.  `None` otherwise: the indicator is left alone.
    pub indicator: Option<bool>,
    /// How long to suspend right after the tick — the guard that keeps one
    /// millisecond from satisfying the cadence test twice.  Zero on a pass
    /// without a tick.
    pub guard_delay_millis: u64,
    /// Every diagnostic of the pass, in emission order: the tick's first,
    /// then the button presses', then the range warning.
    pub diagnostics: Vec<Diagnostic>,
}

/// The state the control loop carries across passes: only the threshold.
/// Every sample is ephemeral and every pin is re-read fresh each pass.
pub struct ControlLoop {
    pub threshold: Threshold,
}

impl ControlLoop {
    /// A loop about to run its first pass, with the startup threshold of
    /// 30 °C.
    pub fn new() -> (c: ControlLoop)
        ensures
            c.threshold.value.sixteenths == crate::threshold::DEFAULT_THRESHOLD_SIXTEENTHS,
    {
        ControlLoop { threshold: Threshold::new() }
    }

    /// A cadence tick: judge the sensor's answer against the current
    /// threshold.  The indicator goes active exactly when the reading
    /// strictly exceeds the threshold — equality does not trigger — and an
    /// out-of-range reading is still compared, only flagged.  A bus failure
    /// is reported and the indicator left alone.
    pub fn handle_sample(&self, reading: &Result<Celsius, SensorError>) -> (out: TickOutcome)
        ensures
            out.indicator == spec_indicator(self.threshold.value, *reading),
            out.diagnostics@ == spec_tick_diagnostics(self.threshold.value, *reading),
    {
        let mut diagnostics: Vec<Diagnostic> = Vec::new();
        match reading {
            Result::Ok(t) => {
                let active = t.exceeds(&self.threshold.value);
                diagnostics.push(
                    Diagnostic::Temperature { reading: *t, threshold: self.threshold.value },
                );
                if !t.in_sensor_range() {
                    diagnostics.push(Diagnostic::SensorOutOfRange);
                }
                proof {
                    assert(diagnostics@ =~= spec_tick_diagnostics(self.threshold.value, *reading));
                }
                TickOutcome { indicator: Some(active), diagnostics }
            },
            Result::Err(_) => {
                diagnostics.push(Diagnostic::SensorReadFailed);
                proof {
                    assert(diagnostics@ =~= spec_tick_diagnostics(self.threshold.value, *reading));
                }
                TickOutcome { indicator: None, diagnostics }
            },
        }
    }

    /// A debounced press: move the threshold exactly one degree in the
    /// button's direction and report the value it now holds.
    pub fn on_button_press(&mut self, direction: ButtonDirection) -> (d: Diagnostic)
        requires
            i32::MIN + 16 <= old(self).threshold.value.sixteenths <= i32::MAX - 16,
        ensures
            final(self).threshold.value.sixteenths == spec_adjusted(
                old(self).threshold.value.sixteenths as int,
                direction,
            ),
            d == match direction {
                ButtonDirection::Down => Diagnostic::ThresholdDecreased {
                    threshold: final(self).threshold.value,
                },
                ButtonDirection::Up => Diagnostic::ThresholdIncreased {
                    threshold: final(self).threshold.value,
                },
            },
    {
        self.threshold.adjust(direction);
        match direction {
            ButtonDirection::Down => Diagnostic::ThresholdDecreased {
                threshold: self.threshold.value,
            },
            ButtonDirection::Up => Diagnostic::ThresholdIncreased {
                threshold: self.threshold.value,
            },
        }
    }

    /// The range re-check that ends a pass: a threshold some press of this
    /// pass left outside the sensor's range draws a warning; it stays in
    /// effect either way, and an untouched threshold is not re-checked.
    pub fn range_warning(&self, changed: bool) -> (w: Option<Diagnostic>)
        ensures
            w == if changed && !self.threshold.value.spec_in_sensor_range() {
                Some(Diagnostic::ThresholdOutOfRange)
            } else {
                None::<Diagnostic>
            },
    {
        if changed && !self.threshold.in_sensor_range() {
            Some(Diagnostic::ThresholdOutOfRange)
        } else {
            None
        }
    }

    /// Service both buttons for one pass, down before up, then re-check the
    /// range.  `down` and `up` say whether each button's press resolved its
    /// debounce this pass.  When both are pressed the two adjustments apply
    /// sequentially, down's first, and both deltas land.
    pub fn service_buttons(&mut self, down: bool, up: bool) -> (diagnostics: Vec<Diagnostic>)
        requires
            i32::MIN + 32 <= old(self).threshold.value.sixteenths <= i32::MAX - 32,
        ensures
            final(self).threshold.value.sixteenths == spec_serviced_threshold(
                old(self).threshold.value.sixteenths as int,
                down,
                up,
            ),
            diagnostics@ == spec_button_diagnostics(
                old(self).threshold.value.sixteenths as int,
                down,
                up,
            ),
    {
        let mut diagnostics: Vec<Diagnostic> = Vec::new();
        let mut changed = false;
        if down {
            let d = self.on_button_press(ButtonDirection::Down);
            diagnostics.push(d);
            changed = true;
        }
        if up {
            let d = self.on_button_press(ButtonDirection::Up);
            diagnostics.push(d);
            changed = true;
        }
        if let Some(w) = self.range_warning(changed) {
            diagnostics.push(w);
        }
        proof {
            assert(diagnostics@ =~= spec_button_diagnostics(
                old(self).threshold.value.sixteenths as int,
                down,
                up,
            ));
        }
        diagnostics
    }

    /// One full pass of the loop, in the order the device runs it: on a
    /// cadence tick — and only then the caller has read the sensor — judge
    /// the reading and ask for the guard delay; then apply the debounced
    /// presses, down before up; then re-check a changed threshold against
    /// the sensor's range.  The diagnostics come back in emission order,
    /// the tick's before the buttons'.
    pub fn pass(
        &mut self,
        now_millis: u64,
        reading: &Option<Result<Celsius, SensorError>>,
        down: bool,
        up: bool,
    ) -> (out: PassOutcome)
        requires
            (*reading) is Some <==> spec_cadence_due(now_millis),
            i32::MIN + 32 <= old(self).threshold.value.sixteenths <= i32::MAX - 32,
        ensures
            out.indicator == match *reading {
                Option::Some(r) => spec_indicator(old(self).threshold.value, r),
                Option::None => None::<bool>,
            },
            out.guard_delay_millis == if spec_cadence_due(now_millis) {
                GUARD_DELAY_MILLIS
            } else {
                0
            },
            final(self).threshold.value.sixteenths == spec_serviced_threshold(
                old(self).threshold.value.sixteenths as int,
                down,
                up,
            ),
            out.diagnostics@ == (match *reading {
                Option::Some(r) => spec_tick_diagnostics(old(self).threshold.value, r),
                Option::None => Seq::<Diagnostic>::empty(),
            }) + spec_button_diagnostics(old(self).threshold.value.sixteenths as int, down, up),
    {
        let mut diagnostics: Vec<Diagnostic> = Vec::new();
        let mut indicator: Option<bool> = None;
        let mut guard_delay_millis: u64 = 0;
        if let Some(r) = reading {
            let tick = self.handle_sample(r);
            indicator = tick.indicator;
            diagnostics = tick.diagnostics;
            guard_delay_millis = GUARD_DELAY_MILLIS;
        }
        let mut button_diagnostics = self.service_buttons(down, up);
        diagnostics.append(&mut button_diagnostics);
        proof {
            assert(diagnostics@ =~= (match *reading {
                Option::Some(r) => spec_tick_diagnostics(old(self).threshold.value, r),
                Option::None => Seq::<Diagnostic>::empty(),
            }) + spec_button_diagnostics(old(self).threshold.value.sixteenths as int, down, up));
        }
        PassOutcome { indicator, guard_delay_millis, diagnostics }
    }
}

} // verus!
