//! The navigation state machine: one main-loop tick's decisions.
//!
//! Each tick the surrounding program reads the mode register, the two
//! ultrasonic obstacle sensors (raw device units) and the four line
//! sensors, and hands them to [`navigation_tick`].  The result is the
//! exact list of actuator steps to perform this tick, ending with the
//! cross-mode safety override where it applies; the blocking straight
//! maneuver is signalled instead and run through its own sub-state
//! machine.
//!
//! Distances stay in raw device units here: the device reports 58.2 raw
//! units per centimeter (291 units per 5 cm), so a reading is below a
//! centimeter threshold exactly when five times the reading is below 291
//! times the threshold.

use vstd::prelude::*;

verus! {

use crate::mode::Mode;

/// Raw device units per five centimeters: the device's calibration is
/// 58.2 units per centimeter, written as the exact ratio 291 / 5.
pub const RAW_UNITS_PER_5_CM: i64 = 291;

/// A raw ultrasonic reading is closer than `cm` centimeters.
pub open spec fn below_cm(raw: int, cm: int) -> bool {
    5 * raw < 291 * cm
}

/// A raw ultrasonic reading is farther than `cm` centimeters.
pub open spec fn above_cm(raw: int, cm: int) -> bool {
    5 * raw > 291 * cm
}

/// The left reading exceeds the right one by more than `cm` centimeters.
pub open spec fn diff_above_cm(left_raw: int, right_raw: int, cm: int) -> bool {
    5 * (left_raw - right_raw) > 291 * cm
}

/// A raw ultrasonic reading is closer than `cm` centimeters.
pub fn distance_below_cm(raw: i32, cm: i32) -> (r: bool)
    ensures
        r == below_cm(raw as int, cm as int),
{
    (raw as i64) * 5 < (cm as i64) * RAW_UNITS_PER_5_CM
}

/// A raw ultrasonic reading is farther than `cm` centimeters.
pub fn distance_above_cm(raw: i32, cm: i32) -> (r: bool)
    ensures
        r == above_cm(raw as int, cm as int),
{
    (raw as i64) * 5 > (cm as i64) * RAW_UNITS_PER_5_CM
}

/// The left reading exceeds the right one by more than `cm` centimeters.
pub fn distance_diff_above_cm(left_raw: i32, right_raw: i32, cm: i32) -> (r: bool)
    ensures
        r == diff_above_cm(left_raw as int, right_raw as int, cm as int),
{
    (left_raw as i64 - right_raw as i64) * 5 > (cm as i64) * RAW_UNITS_PER_5_CM
}

/// The four line sensors, outer and inner on each side.  A `true` value
/// means the sensor sees its line.
#[derive(Clone, Copy, PartialEq, Eq, Structural, Debug)]
pub struct LineSensors {
    pub left_outer: bool,
    pub left_inner: bool,
    pub right_inner: bool,
    pub right_outer: bool,
}

/// One actuator step of a tick's plan, performed in order by the caller.
#[derive(Clone, Copy, PartialEq, Eq, Structural, Debug)]
pub enum Step {
    /// Issue an open-loop power to the left motor.
    LeftDirect(i32),
    /// Issue an open-loop power to the right motor.
    RightDirect(i32),
    /// Hand the left motor a closed-loop target speed.
    LeftTarget(i32),
    /// Hand the right motor a closed-loop target speed.
    RightTarget(i32),
    /// Sleep for the given number of milliseconds.
    SleepMs(u64),
    /// Store the given mode into the mode register.
    StoreMode(Mode),
}

/// Idle: both motors held at open-loop power zero.
pub open spec fn spec_idle_steps() -> Seq<Step> {
    seq![Step::LeftDirect(0), Step::RightDirect(0)]
}

/// Wall following: pivot away from a wall closer than 5 cm, turn gently
/// toward the farther side when the readings differ by more than 30 cm,
/// otherwise drive forward at 60.
pub open spec fn spec_wall_following_steps(left_raw: int, right_raw: int) -> Seq<Step> {
    if below_cm(left_raw, 5) {
        seq![Step::LeftDirect(60), Step::RightDirect(-60i32)]
    } else if below_cm(right_raw, 5) {
        seq![Step::LeftDirect(-60i32), Step::RightDirect(60)]
    } else if diff_above_cm(left_raw, right_raw, 30) {
        seq![Step::LeftDirect(0), Step::RightDirect(60)]
    } else if diff_above_cm(right_raw, left_raw, 30) {
        seq![Step::LeftDirect(60), Step::RightDirect(0)]
    } else {
        seq![Step::LeftDirect(60), Step::RightDirect(60)]
    }
}

/// Line following: pivot right when the left outer sensor triggers, pivot
/// left when the right outer sensor triggers, else drive straight at
/// full power.
pub open spec fn spec_line_following_steps(line: LineSensors) -> Seq<Step> {
    if line.left_outer {
        seq![Step::LeftDirect(-60i32), Step::RightDirect(60)]
    } else if line.right_outer {
        seq![Step::LeftDirect(60), Step::RightDirect(-60i32)]
    } else {
        seq![Step::LeftDirect(100), Step::RightDirect(100)]
    }
}

/// The shared stay-centered behavior: steer away from whichever side's
/// sensors see a line, either with the given forward/reverse powers or,
/// when the micro-reverse is on, with a brief full-reverse pulse on the
/// opposite motor; drive forward at the forward power when neither side
/// triggers.
pub open spec fn spec_between_lines_steps(
    fwd: i32,
    rev: i32,
    use_micro_reverse: bool,
    line: LineSensors,
) -> Seq<Step> {
    if line.left_outer || line.left_inner {
        if use_micro_reverse {
            seq![Step::RightDirect(-100i32), Step::SleepMs(5), Step::LeftDirect(100)]
        } else {
            seq![Step::RightDirect(rev), Step::LeftDirect(fwd)]
        }
    } else if line.right_outer || line.right_inner {
        if use_micro_reverse {
            seq![Step::LeftDirect(-100i32), Step::SleepMs(5), Step::RightDirect(100)]
        } else {
            seq![Step::LeftDirect(rev), Step::RightDirect(fwd)]
        }
    } else {
        seq![Step::LeftDirect(fwd), Step::RightDirect(fwd)]
    }
}

/// The collision guard fires for every mode but `Idle`, `WallFollowing`
/// and `EndOfRamp`, whenever either obstacle reading is closer than 25 cm.
pub open spec fn safety_override_applies(mode: Mode, left_raw: int, right_raw: int) -> bool {
    mode != Mode::Idle && mode != Mode::WallFollowing && mode != Mode::EndOfRamp
        && (below_cm(left_raw, 25) || below_cm(right_raw, 25))
}

/// The steps the collision guard appends to a tick: both motors to
/// open-loop power zero where it applies, nothing where it does not.
pub open spec fn spec_override_steps(mode: Mode, left_raw: int, right_raw: int) -> Seq<Step> {
    if safety_override_applies(mode, left_raw, right_raw) {
        seq![Step::LeftDirect(0), Step::RightDirect(0)]
    } else {
        seq![]
    }
}

/// The behavior of one non-blocking mode, before the safety override.
pub open spec fn spec_dispatch_steps(
    mode: Mode,
    left_raw: int,
    right_raw: int,
    line: LineSensors,
) -> Seq<Step> {
    match mode {
        Mode::Idle => spec_idle_steps(),
        Mode::WallFollowing => spec_wall_following_steps(left_raw, right_raw),
        Mode::LineFollowing => spec_line_following_steps(line),
        Mode::BetweenLines => spec_between_lines_steps(100, 0, false, line),
        Mode::EndOfRamp => spec_between_lines_steps(-15i32, -100i32, true, line),
        Mode::TopOfRamp => spec_between_lines_steps(60, 0, false, line),
        Mode::Straight => seq![],
    }
}

/// What one main-loop tick decides: a step list to perform, or entry into
/// the blocking straight maneuver.
pub enum TickOutcome {
    Steps(Vec<Step>),
    EnterStraight,
}

/// The stay-centered behavior as executable steps.
pub fn between_lines_steps(
    fwd: i32,
    rev: i32,
    use_micro_reverse: bool,
    line: LineSensors,
) -> (r: Vec<Step>)
    ensures
        r@ == spec_between_lines_steps(fwd, rev, use_micro_reverse, line),
{
    let r: Vec<Step> = if line.left_outer || line.left_inner {
        if use_micro_reverse {
            vec![Step::RightDirect(-100), Step::SleepMs(5), Step::LeftDirect(100)]
        } else {
            vec![Step::RightDirect(rev), Step::LeftDirect(fwd)]
        }
    } else if line.right_outer || line.right_inner {
        if use_micro_reverse {
            vec![Step::LeftDirect(-100), Step::SleepMs(5), Step::RightDirect(100)]
        } else {
            vec![Step::LeftDirect(rev), Step::RightDirect(fwd)]
        }
    } else {
        vec![Step::LeftDirect(fwd), Step::RightDirect(fwd)]
    };
    proof {
        assert(r@ =~= spec_between_lines_steps(fwd, rev, use_micro_reverse, line));
    }
    r
}

/// The wall-following behavior as executable steps.
pub fn wall_following_steps(left_raw: i32, right_raw: i32) -> (r: Vec<Step>)
    ensures
        r@ == spec_wall_following_steps(left_raw as int, right_raw as int),
{
    let r: Vec<Step> = if distance_below_cm(left_raw, 5) {
        vec![Step::LeftDirect(60), Step::RightDirect(-60i32)]
    } else if distance_below_cm(right_raw, 5) {
        vec![Step::LeftDirect(-60), Step::RightDirect(60)]
    } else if distance_diff_above_cm(left_raw, right_raw, 30) {
        vec![Step::LeftDirect(0), Step::RightDirect(60)]
    } else if distance_diff_above_cm(right_raw, left_raw, 30) {
        vec![Step::LeftDirect(60), Step::RightDirect(0)]
    } else {
        vec![Step::LeftDirect(60), Step::RightDirect(60)]
    };
    proof {
        assert(r@ =~= spec_wall_following_steps(left_raw as int, right_raw as int));
    }
    r
}

/// The line-following behavior as executable steps.
pub fn line_following_steps(line: LineSensors) -> (r: Vec<Step>)
    ensures
        r@ == spec_line_following_steps(line),
{
    let r: Vec<Step> = if line.left_outer {
        vec![Step::LeftDirect(-60), Step::RightDirect(60)]
    } else if line.right_outer {
        vec![Step::LeftDirect(60), Step::RightDirect(-60)]
    } else {
        vec![Step::LeftDirect(100), Step::RightDirect(100)]
    };
    proof {
        assert(r@ =~= spec_line_following_steps(line));
    }
    r
}

/// One main-loop tick: dispatch on the current mode and append the safety
/// override where it applies.  A tick in `Straight` mode instead enters
/// the blocking maneuver, which the caller runs through its sub-state
/// machine.
pub fn navigation_tick(
    mode: Mode,
    left_raw: i32,
    right_raw: i32,
    line: LineSensors,
) -> (r: TickOutcome)
    ensures
        mode == Mode::Straight <==> r is EnterStraight,
        mode != Mode::Straight ==> r is Steps && r->Steps_0@ == spec_dispatch_steps(
            mode,
            left_raw as int,
            right_raw as int,
            line,
        ) + spec_override_steps(mode, left_raw as int, right_raw as int),
{
    if let Mode::Straight = mode {
        return TickOutcome::EnterStraight;
    }
    let mut steps: Vec<Step> = match mode {
        Mode::Idle => vec![Step::LeftDirect(0), Step::RightDirect(0)],
        Mode::WallFollowing => wall_following_steps(left_raw, right_raw),
        Mode::LineFollowing => line_following_steps(line),
        Mode::BetweenLines => between_lines_steps(100, 0, false, line),
        Mode::EndOfRamp => between_lines_steps(-15, -100, true, line),
        Mode::TopOfRamp => between_lines_steps(60, 0, false, line),
        Mode::Straight => Vec::new(),
    };
    let exempt = match mode {
        Mode::Idle => true,
        Mode::WallFollowing => true,
        Mode::EndOfRamp => true,
        _ => false,
    };
    if !exempt && (distance_below_cm(left_raw, 25) || distance_below_cm(right_raw, 25)) {
        steps.push(Step::LeftDirect(0));
        steps.push(Step::RightDirect(0));
    }
    proof {
        assert(steps@ =~= spec_dispatch_steps(mode, left_raw as int, right_raw as int, line)
            + spec_override_steps(mode, left_raw as int, right_raw as int));
    }
    TickOutcome::Steps(steps)
}

/// The collision guard overrides the mode's own decision: in any mode it
/// covers, whenever either obstacle reading is closer than 25 cm, the
/// tick's step list ends by issuing open-loop power zero to both motors,
/// whatever the mode's behavior decided the same tick.
pub proof fn lemma_safety_override_wins(
    mode: Mode,
    left_raw: int,
    right_raw: int,
    line: LineSensors,
)
    requires
        mode != Mode::Idle,
        mode != Mode::WallFollowing,
        mode != Mode::EndOfRamp,
        mode != Mode::Straight,
        below_cm(left_raw, 25) || below_cm(right_raw, 25),
    ensures
        ({
            let s = spec_dispatch_steps(mode, left_raw, right_raw, line) + spec_override_steps(
                mode,
                left_raw,
                right_raw,
            );
            s.len() >= 2 && s[s.len() - 2] == Step::LeftDirect(0) && s[s.len() - 1]
                == Step::RightDirect(0)
        }),
{
}

} // verus!
