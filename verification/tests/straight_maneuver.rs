use robocar::mode::Mode;
use robocar::navigate::Step;
use robocar::straight::straight_entry;
use robocar::straight::straight_step;
use robocar::straight::StraightPhase;

// In-band means both readings strictly between 125 and 150 cm; at 58.2
// raw units per centimeter that is the open raw interval (7275, 8730).
const IN_BAND: i32 = 8000;
const OUT_OF_BAND: i32 = 9000;
const FAR: i32 = 5000;
const NEAR: i32 = 1000;

#[test]
fn entry_squares_then_ramps() {
    let (phase, steps) = straight_entry();
    assert_eq!(phase, StraightPhase::DistanceHold { consecutive: 0 });
    assert_eq!(
        steps,
        vec![
            Step::LeftDirect(-100),
            Step::SleepMs(50),
            Step::LeftTarget(0),
            Step::RightTarget(100),
            Step::SleepMs(3000),
        ]
    );
}

#[test]
fn distance_hold_exits_after_exactly_twelve_in_band_samples() {
    let (mut phase, _) = straight_entry();
    for sample in 0..11 {
        let (next, steps) = straight_step(phase, true, IN_BAND, IN_BAND, false);
        assert_eq!(
            next,
            StraightPhase::DistanceHold { consecutive: sample + 1 },
            "sample {sample} must not exit yet"
        );
        assert_eq!(steps, vec![Step::SleepMs(15)]);
        phase = next;
    }
    // The twelfth consecutive in-band sample exits into the settle steps.
    let (next, steps) = straight_step(phase, true, IN_BAND, IN_BAND, false);
    assert_eq!(next, StraightPhase::LineCount { count: 0, last: false });
    assert_eq!(
        steps,
        vec![Step::LeftTarget(0), Step::RightTarget(0), Step::SleepMs(1000)]
    );
}

#[test]
fn distance_hold_restarts_on_any_out_of_band_sample() {
    // A non-monotonic run must not exit early: eleven good samples, one
    // bad one, then the count starts over from zero.
    let (mut phase, _) = straight_entry();
    for _ in 0..11 {
        let (next, _) = straight_step(phase, true, IN_BAND, IN_BAND, false);
        phase = next;
    }
    assert_eq!(phase, StraightPhase::DistanceHold { consecutive: 11 });
    let (next, _) = straight_step(phase, true, OUT_OF_BAND, IN_BAND, false);
    assert_eq!(next, StraightPhase::DistanceHold { consecutive: 0 });
    // One side out of band is enough to restart too.
    let (next, _) = straight_step(next, true, IN_BAND, 7275, false);
    assert_eq!(next, StraightPhase::DistanceHold { consecutive: 0 });
}

#[test]
fn band_edges_are_strict() {
    // 7275 raw is exactly 125 cm and 8730 exactly 150 cm: both excluded.
    let (phase, _) = straight_entry();
    let (next, _) = straight_step(phase, true, 7276, 8729, false);
    assert_eq!(next, StraightPhase::DistanceHold { consecutive: 1 });
    let (next, _) = straight_step(phase, true, 7275, 8729, false);
    assert_eq!(next, StraightPhase::DistanceHold { consecutive: 0 });
    let (next, _) = straight_step(phase, true, 7276, 8730, false);
    assert_eq!(next, StraightPhase::DistanceHold { consecutive: 0 });
}

#[test]
fn mode_change_ends_the_distance_hold() {
    let (phase, _) = straight_entry();
    let (next, steps) = straight_step(phase, false, IN_BAND, IN_BAND, false);
    assert_eq!(next, StraightPhase::LineCount { count: 0, last: false });
    assert_eq!(
        steps,
        vec![Step::LeftTarget(0), Step::RightTarget(0), Step::SleepMs(1000)]
    );
}

#[test]
fn line_count_drives_forward_when_clear() {
    let phase = StraightPhase::LineCount { count: 0, last: false };
    let (next, steps) = straight_step(phase, true, FAR, FAR, false);
    assert_eq!(next, phase);
    assert_eq!(
        steps,
        vec![Step::LeftTarget(300), Step::RightTarget(300), Step::SleepMs(5)]
    );
}

#[test]
fn line_count_stops_for_a_close_obstacle() {
    let phase = StraightPhase::LineCount { count: 0, last: false };
    let (next, steps) = straight_step(phase, true, NEAR, FAR, false);
    assert_eq!(next, phase);
    assert_eq!(
        steps,
        vec![Step::LeftDirect(0), Step::RightDirect(0), Step::SleepMs(5)]
    );
}

#[test]
fn line_count_counts_falling_edges_only() {
    // A rising edge (line appears) changes `last` but not the count; the
    // falling edge (line gone again) counts.
    let phase = StraightPhase::LineCount { count: 0, last: false };
    let (rise, steps) = straight_step(phase, true, FAR, FAR, true);
    assert_eq!(rise, StraightPhase::LineCount { count: 0, last: true });
    assert_eq!(
        steps,
        vec![
            Step::LeftTarget(300),
            Step::RightTarget(300),
            Step::SleepMs(200),
            Step::SleepMs(5),
        ]
    );
    let (fall, _) = straight_step(rise, true, FAR, FAR, false);
    assert_eq!(fall, StraightPhase::LineCount { count: 1, last: false });
}

#[test]
fn eighth_falling_edge_stores_idle_and_finishes() {
    let mut phase = StraightPhase::LineCount { count: 0, last: false };
    for _ in 0..7 {
        let (rise, _) = straight_step(phase, true, FAR, FAR, true);
        let (fall, _) = straight_step(rise, true, FAR, FAR, false);
        phase = fall;
    }
    assert_eq!(phase, StraightPhase::LineCount { count: 7, last: false });
    let (rise, _) = straight_step(phase, true, FAR, FAR, true);
    let (done, steps) = straight_step(rise, true, FAR, FAR, false);
    assert_eq!(done, StraightPhase::Done);
    assert_eq!(
        steps,
        vec![
            Step::LeftTarget(300),
            Step::RightTarget(300),
            Step::StoreMode(Mode::Idle),
        ]
    );
}

#[test]
fn mode_change_ends_the_line_count_without_a_store() {
    let phase = StraightPhase::LineCount { count: 3, last: true };
    let (next, steps) = straight_step(phase, false, FAR, FAR, true);
    assert_eq!(next, StraightPhase::Done);
    assert!(steps.is_empty());
}

#[test]
fn done_stays_done() {
    let (next, steps) = straight_step(StraightPhase::Done, true, FAR, FAR, true);
    assert_eq!(next, StraightPhase::Done);
    assert!(steps.is_empty());
}
