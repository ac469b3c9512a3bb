//! Debouncing of the momentary buttons.
//!
//! Mechanical switches chatter.  The debouncer is entered when a button's raw
//! signal reads pressed, re-reads the signal every 20 ms until it reads
//! released, then holds a 30 ms lockout before reporting a single clean
//! activation.  One activation is reported per press-release cycle no matter
//! how the signal bounces in between, because the machine resolves only once,
//! at the end of the cycle, and the lockout absorbs trailing chatter.
//!
//! The machine is driven one sampled signal level at a time; the caller owns
//! the clock and performs the waits between steps.

use vstd::prelude::*;

verus! {

/// How long to wait between re-reads while the signal still reads pressed.
pub const SETTLE_MILLIS: u32 = 20;

/// The quiet period after the signal reads released, guarding against an
/// accidental twitch re-triggering the button.
pub const LOCKOUT_MILLIS: u32 = 30;

/// Where the debouncer stands within one press-release cycle.
#[derive(Clone, Copy, PartialEq, Eq, Structural, Debug)]
pub enum DebouncePhase {
    /// The raw signal last read pressed; re-read it after a short wait.
    Settling,
    /// The raw signal read released; hold the lockout, then resolve.
    Lockout,
}

/// What the debouncer asks of its caller after one step.
#[derive(Clone, Copy, PartialEq, Eq, Structural, Debug)]
pub enum DebounceStep {
    /// Wait the given number of milliseconds, then step again in `phase`
    /// with a fresh read of the raw signal.
    Wait { phase: DebouncePhase, millis: u32 },
    /// The cycle is complete: report exactly one activation.
    Resolved,
}

/// One transition of the debounce state machine.
pub open spec fn spec_debounce_step(phase: DebouncePhase, raw_pressed: bool) -> DebounceStep {
    match phase {
        DebouncePhase::Settling => if raw_pressed {
            DebounceStep::Wait { phase: DebouncePhase::Settling, millis: SETTLE_MILLIS }
        } else {
            DebounceStep::Wait { phase: DebouncePhase::Lockout, millis: LOCKOUT_MILLIS }
        },
        DebouncePhase::Lockout => DebounceStep::Resolved,
    }
}

/// Advance the debouncer by one step: in `Settling` the freshly read raw
/// level decides whether to keep settling or to enter the lockout; the
/// lockout resolves unconditionally, ignoring any further chatter.
pub fn debounce_step(phase: DebouncePhase, raw_pressed: bool) -> (step: DebounceStep)
    ensures
        step == spec_debounce_step(phase, raw_pressed),
{
    match phase {
        DebouncePhase::Settling => if raw_pressed {
            DebounceStep::Wait { phase: DebouncePhase::Settling, millis: SETTLE_MILLIS }
        } else {
            DebounceStep::Wait { phase: DebouncePhase::Lockout, millis: LOCKOUT_MILLIS }
        },
        DebouncePhase::Lockout => DebounceStep::Resolved,
    }
}

/// How many raw reads one debounce cycle consumes when the successive reads
/// are `samples`: everything through the first released read, after which the
/// lockout runs and the cycle resolves.  `None` means the signal never read
/// released, so the cycle never resolves (the button is held forever).
pub open spec fn spec_debounce_consumed(samples: Seq<bool>) -> Option<int>
    decreases samples.len(),
{
    if samples.len() == 0 {
        None
    } else if !samples[0] {
        Some(1)
    } else {
        match spec_debounce_consumed(samples.skip(1)) {
            Option::None => None,
            Option::Some(n) => Some(1 + n),
        }
    }
}

/// The consumed count of a cycle's tail, shifted by the reads already made.
pub open spec fn spec_shift_consumed(consumed: Option<int>, by: int) -> Option<int> {
    match consumed {
        Option::None => None,
        Option::Some(n) => Some(n + by),
    }
}

/// Run one full debounce cycle over a recorded sequence of raw reads,
/// returning how many reads it consumed, or `None` when the signal never
/// read released within `samples`.
pub fn debounce_cycle(samples: &Vec<bool>) -> (consumed: Option<usize>)
    ensures
        match consumed {
            Option::Some(n) => spec_debounce_consumed(samples@) == Some(n as int),
            Option::None => spec_debounce_consumed(samples@) is None,
        },
{
    let mut index: usize = 0;
    let mut phase = DebouncePhase::Settling;
    proof {
        assert(samples@.skip(0) =~= samples@);
        assert(spec_debounce_consumed(samples@) == spec_shift_consumed(
            spec_debounce_consumed(samples@),
            0,
        ));
    }
    loop
        invariant
            phase is Settling,
            index <= samples@.len(),
            forall|i: int| 0 <= i < index ==> samples@[i],
            spec_debounce_consumed(samples@) == spec_shift_consumed(
                spec_debounce_consumed(samples@.skip(index as int)),
                index as int,
            ),
        decreases samples@.len() - index,
    {
        if index >= samples.len() {
            proof {
                assert(samples@.skip(index as int).len() == 0);
            }
            return None;
        }
        let raw = samples[index];
        proof {
            assert(samples@.skip(index as int)[0] == samples@[index as int]);
        }
        match debounce_step(phase, raw) {
            DebounceStep::Wait { phase: next, millis: _ } => {
                match next {
                    DebouncePhase::Settling => {
                        proof {
                            lemma_consumed_skip_one(samples@, index as int);
                        }
                        index = index + 1;
                        phase = next;
                    },
                    DebouncePhase::Lockout => {
                        // The release was read; the lockout ignores further
                        // chatter and the cycle resolves.
                        return Some(index + 1);
                    },
                }
            },
            DebounceStep::Resolved => {
                // The settling phase always asks for a wait.
                proof {
                    assert(false);
                }
                return None;
            },
        }
    }
}

/// Peeling one pressed read off the front shifts the consumed count by one.
proof fn lemma_consumed_skip_one(samples: Seq<bool>, index: int)
    requires
        0 <= index < samples.len(),
        samples[index],
        spec_debounce_consumed(samples) == spec_shift_consumed(
            spec_debounce_consumed(samples.skip(index)),
            index,
        ),
    ensures
        spec_debounce_consumed(samples) == spec_shift_consumed(
            spec_debounce_consumed(samples.skip(index + 1)),
            index + 1,
        ),
{
    let tail = samples.skip(index);
    assert(tail[0] == samples[index]);
    assert(tail.skip(1) =~= samples.skip(index + 1));
    match spec_debounce_consumed(samples.skip(index + 1)) {
        Option::None => {},
        Option::Some(_) => {},
    }
}

/// Law: however the raw signal chatters, a cycle that contains a release
/// resolves exactly once, at the first read that finds the signal released;
/// every read before it found the signal pressed.  A single physical
/// press-then-release therefore produces exactly one activation.
pub proof fn lemma_chatter_yields_one_activation(samples: Seq<bool>)
    requires
        exists|i: int| 0 <= i < samples.len() && !samples[i],
    ensures
        spec_debounce_consumed(samples) is Some,
        ({
            let n = spec_debounce_consumed(samples)->Some_0;
            &&& 1 <= n <= samples.len()
            &&& !samples[n - 1]
            &&& forall|i: int| 0 <= i < n - 1 ==> samples[i]
        }),
    decreases samples.len(),
{
    if !samples[0] {
    } else {
        let i = choose|i: int| 0 <= i < samples.len() && !samples[i];
        assert(0 <= i - 1 < samples.skip(1).len() && !samples.skip(1)[i - 1]);
        lemma_chatter_yields_one_activation(samples.skip(1));
        let m = spec_debounce_consumed(samples.skip(1))->Some_0;
        assert(forall|j: int| 0 <= j < m - 1 ==> samples.skip(1)[j]);
        assert(forall|j: int| 1 <= j < m ==> samples[j] == samples.skip(1)[j - 1]);
    }
}

/// Law: while the signal never reads released, the cycle never resolves —
/// a held button produces no activation until it is let go.
pub proof fn lemma_no_release_no_activation(samples: Seq<bool>)
    requires
        forall|i: int| 0 <= i < samples.len() ==> samples[i],
    ensures
        spec_debounce_consumed(samples) is None,
    decreases samples.len(),
{
    if samples.len() > 0 {
        assert(forall|i: int|
            0 <= i < samples.skip(1).len() ==> samples.skip(1)[i] == samples[i + 1]);
        lemma_no_release_no_activation(samples.skip(1));
    }
}

} // verus!
