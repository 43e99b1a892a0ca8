use robocar::mode::apply_mode_event;
use robocar::mode::tag_decision;
use robocar::mode::Mode;
use robocar::mode::ModeEvent;
use robocar::navigate::navigation_tick;
use robocar::navigate::LineSensors;
use robocar::navigate::Step;
use robocar::navigate::TickOutcome;

const CLEAR: LineSensors = LineSensors {
    left_outer: false,
    left_inner: false,
    right_inner: false,
    right_outer: false,
};

// 58.2 raw units per centimeter: comfortably far / near readings.
const FAR: i32 = 5000; // ~86 cm
const NEAR: i32 = 1000; // ~17 cm, under the 25 cm guard

fn steps_of(outcome: TickOutcome) -> Vec<Step> {
    match outcome {
        TickOutcome::Steps(v) => v,
        TickOutcome::EnterStraight => panic!("expected a step list"),
    }
}

#[test]
fn emergency_forces_idle_from_any_mode() {
    assert_eq!(apply_mode_event(Mode::WallFollowing, ModeEvent::Emergency), Mode::Idle);
    for mode in [
        Mode::Idle,
        Mode::WallFollowing,
        Mode::LineFollowing,
        Mode::BetweenLines,
        Mode::Straight,
        Mode::EndOfRamp,
        Mode::TopOfRamp,
    ] {
        assert_eq!(apply_mode_event(mode, ModeEvent::Emergency), Mode::Idle);
    }
}

#[test]
fn straight_completion_forces_idle() {
    assert_eq!(apply_mode_event(Mode::Straight, ModeEvent::StraightFinished), Mode::Idle);
}

#[test]
fn committed_tag_stores_its_mode() {
    assert_eq!(
        apply_mode_event(Mode::Idle, ModeEvent::TagCommitted(Mode::TopOfRamp)),
        Mode::TopOfRamp
    );
}

#[test]
fn end_of_ramp_tag_commits_only_after_the_delay() {
    let decision = tag_decision(&[193, 76, 3, 32]).expect("a known tag");
    assert_eq!(decision.mode, Mode::EndOfRamp);
    assert!(decision.delay_ms >= 400);
    assert_eq!(decision.delay_ms, 400);
}

#[test]
fn other_tags_commit_at_once() {
    let table = [
        ([174u8, 11, 30, 43], Mode::WallFollowing),
        ([125u8, 239, 33, 43], Mode::LineFollowing),
        ([186u8, 23, 207, 41], Mode::BetweenLines),
        ([183u8, 25, 34, 43], Mode::Straight),
        ([195u8, 136, 144, 26], Mode::TopOfRamp),
    ];
    for (tag, mode) in table {
        let decision = tag_decision(&tag).expect("a known tag");
        assert_eq!(decision.mode, mode);
        assert_eq!(decision.delay_ms, 0);
    }
}

#[test]
fn unrecognized_tag_asks_nothing() {
    assert!(tag_decision(&[1, 2, 3, 4]).is_none());
    // One byte off a known identifier is unknown.
    assert!(tag_decision(&[193, 76, 3, 33]).is_none());
}

#[test]
fn mode_register_round_trips_through_indices() {
    for mode in [
        Mode::Idle,
        Mode::WallFollowing,
        Mode::LineFollowing,
        Mode::BetweenLines,
        Mode::Straight,
        Mode::EndOfRamp,
        Mode::TopOfRamp,
    ] {
        assert_eq!(Mode::from(mode.index()), mode);
    }
    assert_eq!(Mode::Idle.index(), 0);
    assert_eq!(Mode::Straight.index(), 4);
}

#[test]
fn idle_tick_stops_both_motors() {
    let steps = steps_of(navigation_tick(Mode::Idle, NEAR, NEAR, CLEAR));
    assert_eq!(steps, vec![Step::LeftDirect(0), Step::RightDirect(0)]);
}

#[test]
fn wall_following_pivots_away_from_a_close_wall() {
    // 200 raw is ~3.4 cm, under the 5 cm pivot threshold.
    let steps = steps_of(navigation_tick(Mode::WallFollowing, 200, FAR, CLEAR));
    assert_eq!(steps, vec![Step::LeftDirect(60), Step::RightDirect(-60)]);
    let steps = steps_of(navigation_tick(Mode::WallFollowing, FAR, 200, CLEAR));
    assert_eq!(steps, vec![Step::LeftDirect(-60), Step::RightDirect(60)]);
}

#[test]
fn wall_following_turns_toward_the_farther_side() {
    // Left reads ~86 cm, right ~34 cm: differential above 30 cm.
    let steps = steps_of(navigation_tick(Mode::WallFollowing, 5000, 2000, CLEAR));
    assert_eq!(steps, vec![Step::LeftDirect(0), Step::RightDirect(60)]);
    let steps = steps_of(navigation_tick(Mode::WallFollowing, 2000, 5000, CLEAR));
    assert_eq!(steps, vec![Step::LeftDirect(60), Step::RightDirect(0)]);
}

#[test]
fn wall_following_drives_forward_when_centered() {
    let steps = steps_of(navigation_tick(Mode::WallFollowing, 3000, 3000, CLEAR));
    assert_eq!(steps, vec![Step::LeftDirect(60), Step::RightDirect(60)]);
}

#[test]
fn wall_following_is_exempt_from_the_collision_guard() {
    // Both walls close: the pivot is issued, nothing appended.
    let steps = steps_of(navigation_tick(Mode::WallFollowing, 200, 200, CLEAR));
    assert_eq!(steps, vec![Step::LeftDirect(60), Step::RightDirect(-60)]);
}

#[test]
fn line_following_steers_off_the_edges() {
    let left = LineSensors { left_outer: true, ..CLEAR };
    let steps = steps_of(navigation_tick(Mode::LineFollowing, FAR, FAR, left));
    assert_eq!(steps, vec![Step::LeftDirect(-60), Step::RightDirect(60)]);
    let right = LineSensors { right_outer: true, ..CLEAR };
    let steps = steps_of(navigation_tick(Mode::LineFollowing, FAR, FAR, right));
    assert_eq!(steps, vec![Step::LeftDirect(60), Step::RightDirect(-60)]);
    let steps = steps_of(navigation_tick(Mode::LineFollowing, FAR, FAR, CLEAR));
    assert_eq!(steps, vec![Step::LeftDirect(100), Step::RightDirect(100)]);
}

#[test]
fn safety_override_wins_over_line_following() {
    // The line sensors ask for full speed ahead, but an obstacle under
    // 25 cm appends a stop for both motors the same tick.
    let steps = steps_of(navigation_tick(Mode::LineFollowing, NEAR, FAR, CLEAR));
    assert_eq!(
        steps,
        vec![
            Step::LeftDirect(100),
            Step::RightDirect(100),
            Step::LeftDirect(0),
            Step::RightDirect(0),
        ]
    );
    // Either sensor alone suffices.
    let steps = steps_of(navigation_tick(Mode::LineFollowing, FAR, NEAR, CLEAR));
    assert_eq!(steps[steps.len() - 2..], [Step::LeftDirect(0), Step::RightDirect(0)]);
}

#[test]
fn between_lines_steers_away_from_a_seen_line() {
    let left_inner = LineSensors { left_inner: true, ..CLEAR };
    let steps = steps_of(navigation_tick(Mode::BetweenLines, FAR, FAR, left_inner));
    assert_eq!(steps, vec![Step::RightDirect(0), Step::LeftDirect(100)]);
    let right_inner = LineSensors { right_inner: true, ..CLEAR };
    let steps = steps_of(navigation_tick(Mode::BetweenLines, FAR, FAR, right_inner));
    assert_eq!(steps, vec![Step::LeftDirect(0), Step::RightDirect(100)]);
    let steps = steps_of(navigation_tick(Mode::BetweenLines, FAR, FAR, CLEAR));
    assert_eq!(steps, vec![Step::LeftDirect(100), Step::RightDirect(100)]);
}

#[test]
fn top_of_ramp_reuses_the_centered_behavior_at_sixty() {
    let steps = steps_of(navigation_tick(Mode::TopOfRamp, FAR, FAR, CLEAR));
    assert_eq!(steps, vec![Step::LeftDirect(60), Step::RightDirect(60)]);
}

#[test]
fn end_of_ramp_micro_reverses_and_is_exempt() {
    let left = LineSensors { left_outer: true, ..CLEAR };
    let steps = steps_of(navigation_tick(Mode::EndOfRamp, NEAR, NEAR, left));
    assert_eq!(
        steps,
        vec![Step::RightDirect(-100), Step::SleepMs(5), Step::LeftDirect(100)]
    );
    let right = LineSensors { right_inner: true, ..CLEAR };
    let steps = steps_of(navigation_tick(Mode::EndOfRamp, FAR, FAR, right));
    assert_eq!(
        steps,
        vec![Step::LeftDirect(-100), Step::SleepMs(5), Step::RightDirect(100)]
    );
    // Neither side seen: reversed-sign forward drive.
    let steps = steps_of(navigation_tick(Mode::EndOfRamp, FAR, FAR, CLEAR));
    assert_eq!(steps, vec![Step::LeftDirect(-15), Step::RightDirect(-15)]);
}

#[test]
fn straight_mode_enters_the_maneuver() {
    assert!(matches!(
        navigation_tick(Mode::Straight, FAR, FAR, CLEAR),
        TickOutcome::EnterStraight
    ));
}
