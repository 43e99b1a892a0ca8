//! The blocking straight maneuver, as an explicit sub-state machine.
//!
//! While the mode register holds `Straight`, the main loop runs this
//! machine instead of its normal tick: a brief squaring pulse and ramp-up
//! (the entry steps), a distance-hold loop that waits for twelve
//! consecutive in-band readings, a stop-and-settle, and a line-count loop
//! that drives forward counting falling edges of the middle-left line
//! sensor and stores `Idle` after the eighth.  The caller performs the
//! returned steps, reads the sensors anew, and feeds every reading back
//! through [`straight_step`] until the machine is `Done`.

use vstd::prelude::*;

verus! {

use crate::mode::Mode;
use crate::navigate::Step;
use crate::navigate::below_cm;
use crate::navigate::above_cm;
use crate::navigate::distance_below_cm;
use crate::navigate::distance_above_cm;

/// Where the maneuver stands between two sensor readings.
#[derive(Clone, Copy, PartialEq, Eq, Structural, Debug)]
pub enum StraightPhase {
    /// Waiting at speed for the wall ahead: counting consecutive readings
    /// with both distances inside the 125–150 cm band.
    DistanceHold { consecutive: u32 },
    /// Driving forward counting falling edges of the middle-left line
    /// sensor; `last` is the sensor value at the previous reading.
    LineCount { count: u32, last: bool },
    /// The maneuver is over; the main loop resumes its normal ticks.
    Done,
}

/// Reachable machine states: the hold counter exits at twelve and the
/// line counter at eight, so neither is ever seen at or past its bound.
pub open spec fn phase_wf(p: StraightPhase) -> bool {
    match p {
        StraightPhase::DistanceHold { consecutive } => consecutive < 12,
        StraightPhase::LineCount { count, last } => count < 8,
        StraightPhase::Done => true,
    }
}

/// Both obstacle readings fall strictly inside the 125–150 cm band.
pub open spec fn in_band(left_raw: int, right_raw: int) -> bool {
    below_cm(left_raw, 150) && above_cm(left_raw, 125) && below_cm(right_raw, 150) && above_cm(
        right_raw,
        125,
    )
}

/// The debounce counter after one reading: an in-band reading extends the
/// run, any other reading restarts it from zero.
pub open spec fn spec_hold_counter(consecutive: nat, sample_in_band: bool) -> nat {
    if sample_in_band {
        consecutive + 1
    } else {
        0
    }
}

/// The maneuver's opening steps: square against the surface with a brief
/// full-reverse pulse on the left motor, then ramp the right motor to a
/// closed-loop target of 100 with the left held at 0 for three seconds.
pub open spec fn spec_straight_entry_steps() -> Seq<Step> {
    seq![
        Step::LeftDirect(-100i32),
        Step::SleepMs(50),
        Step::LeftTarget(0),
        Step::RightTarget(100),
        Step::SleepMs(3000),
    ]
}

/// The stop-and-settle steps between the two loops: both motors to a
/// closed-loop target of zero, held for one second.
pub open spec fn spec_settle_steps() -> Seq<Step> {
    seq![Step::LeftTarget(0), Step::RightTarget(0), Step::SleepMs(1000)]
}

/// One machine step on a fresh sensor reading.  `still_straight` is
/// whether the mode register still holds `Straight`: an outside mode
/// change ends whichever loop is running at its next reading.
pub open spec fn spec_straight_step(
    phase: StraightPhase,
    still_straight: bool,
    left_raw: int,
    right_raw: int,
    middle_left: bool,
) -> (StraightPhase, Seq<Step>) {
    match phase {
        StraightPhase::DistanceHold { consecutive } => {
            if !still_straight {
                (StraightPhase::LineCount { count: 0, last: false }, spec_settle_steps())
            } else {
                let next = spec_hold_counter(consecutive as nat, in_band(left_raw, right_raw));
                if next == 12 {
                    (StraightPhase::LineCount { count: 0, last: false }, spec_settle_steps())
                } else {
                    (
                        StraightPhase::DistanceHold { consecutive: next as u32 },
                        seq![Step::SleepMs(15)],
                    )
                }
            }
        },
        StraightPhase::LineCount { count, last } => {
            if !still_straight {
                (StraightPhase::Done, seq![])
            } else {
                let motor_steps = if below_cm(left_raw, 25) || below_cm(right_raw, 25) {
                    seq![Step::LeftDirect(0i32), Step::RightDirect(0i32)]
                } else {
                    seq![Step::LeftTarget(300i32), Step::RightTarget(300i32)]
                };
                if last != middle_left {
                    let next = if !middle_left {
                        count + 1
                    } else {
                        count as int
                    };
                    if next == 8 {
                        (StraightPhase::Done, motor_steps + seq![Step::StoreMode(Mode::Idle)])
                    } else {
                        (
                            StraightPhase::LineCount { count: next as u32, last: middle_left },
                            motor_steps + seq![Step::SleepMs(200), Step::SleepMs(5)],
                        )
                    }
                } else {
                    (
                        StraightPhase::LineCount { count, last },
                        motor_steps + seq![Step::SleepMs(5)],
                    )
                }
            }
        },
        StraightPhase::Done => (StraightPhase::Done, seq![]),
    }
}

/// Enter the maneuver: the opening steps and the distance-hold loop with
/// a fresh debounce counter.
pub fn straight_entry() -> (r: (StraightPhase, Vec<Step>))
    ensures
        r.0 == (StraightPhase::DistanceHold { consecutive: 0u32 }),
        phase_wf(r.0),
        r.1@ == spec_straight_entry_steps(),
{
    let steps: Vec<Step> = vec![
        Step::LeftDirect(-100),
        Step::SleepMs(50),
        Step::LeftTarget(0),
        Step::RightTarget(100),
        Step::SleepMs(3000),
    ];
    proof {
        assert(steps@ =~= spec_straight_entry_steps());
    }
    (StraightPhase::DistanceHold { consecutive: 0 }, steps)
}

/// One step of the maneuver on a fresh reading of the mode register, the
/// two obstacle sensors and the middle-left line sensor.
pub fn straight_step(
    phase: StraightPhase,
    still_straight: bool,
    left_raw: i32,
    right_raw: i32,
    middle_left: bool,
) -> (r: (StraightPhase, Vec<Step>))
    requires
        phase_wf(phase),
    ensures
        r.0 == spec_straight_step(
            phase,
            still_straight,
            left_raw as int,
            right_raw as int,
            middle_left,
        ).0,
        r.1@ == spec_straight_step(
            phase,
            still_straight,
            left_raw as int,
            right_raw as int,
            middle_left,
        ).1,
        phase_wf(r.0),
{
    match phase {
        StraightPhase::DistanceHold { consecutive } => {
            if !still_straight {
                settle_transition()
            } else {
                let sample_in_band = distance_below_cm(left_raw, 150) && distance_above_cm(
                    left_raw,
                    125,
                ) && distance_below_cm(right_raw, 150) && distance_above_cm(right_raw, 125);
                let next: u32 = if sample_in_band {
                    consecutive + 1
                } else {
                    0
                };
                if next == 12 {
                    settle_transition()
                } else {
                    let steps: Vec<Step> = vec![Step::SleepMs(15)];
                    proof {
                        assert(steps@ =~= seq![Step::SleepMs(15)]);
                    }
                    (StraightPhase::DistanceHold { consecutive: next }, steps)
                }
            }
        },
        StraightPhase::LineCount { count, last } => {
            if !still_straight {
                (StraightPhase::Done, Vec::new())
            } else {
                let mut steps: Vec<Step> = if distance_below_cm(left_raw, 25) || distance_below_cm(
                    right_raw,
                    25,
                ) {
                    vec![Step::LeftDirect(0), Step::RightDirect(0)]
                } else {
                    vec![Step::LeftTarget(300), Step::RightTarget(300)]
                };
                if last != middle_left {
                    let next: u32 = if !middle_left {
                        count + 1
                    } else {
                        count
                    };
                    if next == 8 {
                        steps.push(Step::StoreMode(Mode::Idle));
                        proof {
                            assert(steps@ =~= spec_straight_step(
                                phase,
                                still_straight,
                                left_raw as int,
                                right_raw as int,
                                middle_left,
                            ).1);
                        }
                        (StraightPhase::Done, steps)
                    } else {
                        steps.push(Step::SleepMs(200));
                        steps.push(Step::SleepMs(5));
                        proof {
                            assert(steps@ =~= spec_straight_step(
                                phase,
                                still_straight,
                                left_raw as int,
                                right_raw as int,
                                middle_left,
                            ).1);
                        }
                        (StraightPhase::LineCount { count: next, last: middle_left }, steps)
                    }
                } else {
                    steps.push(Step::SleepMs(5));
                    proof {
                        assert(steps@ =~= spec_straight_step(
                            phase,
                            still_straight,
                            left_raw as int,
                            right_raw as int,
                            middle_left,
                        ).1);
                    }
                    (StraightPhase::LineCount { count, last }, steps)
                }
            }
        },
        StraightPhase::Done => (StraightPhase::Done, Vec::new()),
    }
}

/// The distance-hold loop's state after a run of readings, each reduced
/// to whether it was in band: the counter after the last reading, or
/// `None` once the loop has exited.
pub open spec fn hold_state_after(samples: Seq<bool>) -> Option<nat>
    decreases samples.len(),
{
    if samples.len() == 0 {
        Some(0nat)
    } else {
        match hold_state_after(samples.drop_last()) {
            None => None,
            Some(c) => {
                let next = spec_hold_counter(c, samples.last());
                if next == 12 {
                    None
                } else {
                    Some(next)
                }
            },
        }
    }
}

/// Twelve consecutive in-band readings start at index `i`.
pub open spec fn twelve_at(samples: Seq<bool>, i: int) -> bool {
    forall|j: int| i <= j < i + 12 ==> samples[j]
}

/// Some twelve consecutive readings are all in band.
pub open spec fn has_twelve_consecutive(samples: Seq<bool>) -> bool {
    exists|i: int| 0 <= i && i + 12 <= samples.len() && #[trigger] twelve_at(samples, i)
}

/// The length of the run of in-band readings at the end of the sequence.
pub open spec fn trailing_true(samples: Seq<bool>) -> nat
    decreases samples.len(),
{
    if samples.len() == 0 || !samples.last() {
        0
    } else {
        trailing_true(samples.drop_last()) + 1
    }
}

/// The trailing run is a run: every reading inside it is in band.
proof fn lemma_trailing_true_run(s: Seq<bool>)
    ensures
        trailing_true(s) <= s.len(),
        forall|j: int| s.len() - trailing_true(s) <= j < s.len() ==> s[j],
    decreases s.len(),
{
    if s.len() == 0 || !s.last() {
    } else {
        lemma_trailing_true_run(s.drop_last());
        assert forall|j: int| s.len() - trailing_true(s) <= j < s.len() implies s[j] by {
            if j < s.len() - 1 {
                assert(s.drop_last()[j] == s[j]);
            }
        }
    }
}

/// A run of `k` in-band readings at the end of the sequence makes the
/// trailing run at least `k` long.
proof fn lemma_trailing_true_lower(s: Seq<bool>, k: int)
    requires
        0 <= k <= s.len(),
        forall|j: int| s.len() - k <= j < s.len() ==> s[j],
    ensures
        trailing_true(s) >= k,
    decreases k,
{
    if k > 0 {
        assert(s[s.len() - 1]);
        let t = s.drop_last();
        assert forall|j: int| t.len() - (k - 1) <= j < t.len() implies t[j] by {
            assert(t[j] == s[j]);
        }
        lemma_trailing_true_lower(t, k - 1);
    }
}

/// The distance-hold loop exits after exactly twelve consecutive in-band
/// readings: starting from a fresh counter, the loop has exited after a
/// run of readings exactly when twelve consecutive ones were all in band,
/// and while it runs its counter is the length of the current trailing
/// in-band run — any out-of-band reading restarts it from zero.
pub proof fn lemma_distance_hold_characterization(s: Seq<bool>)
    ensures
        hold_state_after(s) is None <==> has_twelve_consecutive(s),
        hold_state_after(s) matches Some(c) ==> c == trailing_true(s) && c < 12,
    decreases s.len(),
{
    if s.len() == 0 {
        assert(!has_twelve_consecutive(s));
    } else {
        let t = s.drop_last();
        let b = s.last();
        lemma_distance_hold_characterization(t);
        match hold_state_after(t) {
            None => {
                let i = choose|i: int| 0 <= i && i + 12 <= t.len() && #[trigger] twelve_at(t, i);
                assert forall|j: int| i <= j < i + 12 implies s[j] by {
                    assert(t[j] == s[j]);
                }
                assert(twelve_at(s, i));
                assert(has_twelve_consecutive(s));
            },
            Some(c) => {
                if b {
                    assert(trailing_true(s) == trailing_true(t) + 1);
                    let next = c + 1;
                    if next == 12 {
                        lemma_trailing_true_run(s);
                        assert forall|j: int| s.len() - 12 <= j < s.len() - 12 + 12 implies
                            s[j] by {}
                        assert(twelve_at(s, s.len() - 12));
                        assert(has_twelve_consecutive(s));
                    } else {
                        assert(hold_state_after(s) == Some((c + 1) as nat));
                        assert forall|i: int|
                            0 <= i && i + 12 <= s.len() implies !twelve_at(s, i) by {
                            if i + 12 <= t.len() {
                                if twelve_at(s, i) {
                                    assert forall|j: int| i <= j < i + 12 implies t[j] by {
                                        assert(t[j] == s[j]);
                                    }
                                    assert(twelve_at(t, i));
                                    assert(has_twelve_consecutive(t));
                                }
                            } else {
                                if twelve_at(s, i) {
                                    assert(i + 12 == s.len());
                                    assert forall|j: int|
                                        s.len() - 12 <= j < s.len() implies s[j] by {
                                        assert(i <= j < i + 12);
                                    }
                                    lemma_trailing_true_lower(s, 12);
                                }
                            }
                        }
                        assert(!has_twelve_consecutive(s));
                    }
                } else {
                    assert(trailing_true(s) == 0);
                    assert(hold_state_after(s) == Some(0nat));
                    assert forall|i: int| 0 <= i && i + 12 <= s.len() implies !twelve_at(
                        s,
                        i,
                    ) by {
                        if i + 12 <= t.len() {
                            if twelve_at(s, i) {
                                assert forall|j: int| i <= j < i + 12 implies t[j] by {
                                    assert(t[j] == s[j]);
                                }
                                assert(twelve_at(t, i));
                                assert(has_twelve_consecutive(t));
                            }
                        } else {
                            if twelve_at(s, i) {
                                assert(s[s.len() - 1]);
                            }
                        }
                    }
                    assert(!has_twelve_consecutive(s));
                }
            },
        }
    }
}

/// The transition both exits of the distance-hold loop share: emit the
/// settle steps and start the line-count loop afresh.
fn settle_transition() -> (r: (StraightPhase, Vec<Step>))
    ensures
        r.0 == (StraightPhase::LineCount { count: 0u32, last: false }),
        r.1@ == spec_settle_steps(),
{
    let steps: Vec<Step> = vec![Step::LeftTarget(0), Step::RightTarget(0), Step::SleepMs(1000)];
    proof {
        assert(steps@ =~= spec_settle_steps());
    }
    (StraightPhase::LineCount { count: 0, last: false }, steps)
}

} // verus!
