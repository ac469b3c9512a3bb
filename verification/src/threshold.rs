//! The adjustable alarm threshold.
//!
//! The threshold starts at a compiled-in default of 30 °C and moves by
//! exactly one degree per debounced button press — no variable step, no
//! acceleration.  It is never clamped: a value outside the sensor's range is
//! kept and merely flagged by the control loop.

use vstd::prelude::*;
use crate::temperature::{Celsius, SIXTEENTHS_PER_DEGREE};

verus! {

/// The threshold the device boots with: 30 °C.
pub const DEFAULT_THRESHOLD_SIXTEENTHS: i32 = 480;

/// Which of the two momentary buttons was pressed.
#[derive(Clone, Copy, PartialEq, Eq, Structural, Debug)]
pub enum ButtonDirection {
    /// The button that lowers the threshold.
    Down,
    /// The button that raises the threshold.
    Up,
}

/// The threshold after one press in the given direction: exactly one degree
/// down or up.
pub open spec fn spec_adjusted(sixteenths: int, direction: ButtonDirection) -> int {
    match direction {
        ButtonDirection::Down => sixteenths - SIXTEENTHS_PER_DEGREE,
        ButtonDirection::Up => sixteenths + SIXTEENTHS_PER_DEGREE,
    }
}

/// The threshold after `count` consecutive presses in one direction.
pub open spec fn spec_adjusted_times(sixteenths: int, direction: ButtonDirection, count: nat) -> int
    decreases count,
{
    if count == 0 {
        sixteenths
    } else {
        spec_adjusted(spec_adjusted_times(sixteenths, direction, (count - 1) as nat), direction)
    }
}

/// The alarm threshold, owned by the control loop for the life of the device.
#[derive(Clone, Copy, PartialEq, Eq, Structural, Debug)]
pub struct Threshold {
    pub value: Celsius,
}

impl Threshold {
    /// The startup threshold of 30 °C.
    pub fn new() -> (t: Threshold)
        ensures
            t.value.sixteenths == DEFAULT_THRESHOLD_SIXTEENTHS,
    {
        Threshold { value: Celsius { sixteenths: DEFAULT_THRESHOLD_SIXTEENTHS } }
    }

    /// Move the threshold by exactly one degree in the given direction.
    /// The result is not clamped to the sensor's range.
    pub fn adjust(&mut self, direction: ButtonDirection)
        requires
            i32::MIN + SIXTEENTHS_PER_DEGREE <= old(self).value.sixteenths
                <= i32::MAX - SIXTEENTHS_PER_DEGREE,
        ensures
            final(self).value.sixteenths
                == spec_adjusted(old(self).value.sixteenths as int, direction),
    {
        match direction {
            ButtonDirection::Down => {
                self.value.sixteenths = self.value.sixteenths - SIXTEENTHS_PER_DEGREE;
            },
            ButtonDirection::Up => {
                self.value.sixteenths = self.value.sixteenths + SIXTEENTHS_PER_DEGREE;
            },
        }
    }

    /// Is the threshold within the sensor's operating range?  Out-of-range
    /// thresholds stay in effect; the control loop only warns about them.
    pub fn in_sensor_range(&self) -> (r: bool)
        ensures
            r == self.value.spec_in_sensor_range(),
    {
        self.value.in_sensor_range()
    }
}

/// Consecutive presses in one direction move the threshold by exactly one
/// degree each, with no acceleration, so `count` presses move it by exactly
/// `count` degrees, strictly monotonically: downward presses only ever lower
/// it and upward presses only ever raise it.
pub proof fn lemma_presses_move_one_degree_each(
    sixteenths: int,
    direction: ButtonDirection,
    count: nat,
)
    ensures
        direction == ButtonDirection::Down ==> spec_adjusted_times(sixteenths, direction, count)
            == sixteenths - count * SIXTEENTHS_PER_DEGREE,
        direction == ButtonDirection::Up ==> spec_adjusted_times(sixteenths, direction, count)
            == sixteenths + count * SIXTEENTHS_PER_DEGREE,
        forall|earlier: nat, later: nat|
            earlier < later <= count && direction == ButtonDirection::Down
                ==> #[trigger] spec_adjusted_times(sixteenths, direction, later)
                    < #[trigger] spec_adjusted_times(sixteenths, direction, earlier),
        forall|earlier: nat, later: nat|
            earlier < later <= count && direction == ButtonDirection::Up
                ==> #[trigger] spec_adjusted_times(sixteenths, direction, later)
                    > #[trigger] spec_adjusted_times(sixteenths, direction, earlier),
    decreases count,
{
    if count == 0 {
    } else {
        lemma_presses_move_one_degree_each(sixteenths, direction, (count - 1) as nat);
        assert(count * SIXTEENTHS_PER_DEGREE
            == (count - 1) * SIXTEENTHS_PER_DEGREE + SIXTEENTHS_PER_DEGREE) by (nonlinear_arith);
    }
}

} // verus!
