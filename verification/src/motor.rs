//! Per-wheel motor state and the closed-loop speed controller.
//!
//! A motor is driven through a 4-byte device word holding a power
//! percentage in `[-100, 100]`.  Two paths exist: the closed-loop path,
//! where a background loop nudges the power toward a target speed using
//! encoder (light-barrier) feedback, and the open-loop path, where a
//! power value is issued directly and the controller is dormant.
//!
//! The functions here compute the state transitions and the power value
//! to issue; the caller owns the device handle and performs the write.

use vstd::prelude::*;

verus! {

use vstd::arithmetic::div_mod::lemma_div_pos_is_pos;
use vstd::arithmetic::div_mod::lemma_div_is_ordered;

/// The controller sleeps this long between cycles while enabled.
pub const CONTROL_TICK_MS: u64 = 100;

/// The controller polls this often while dormant, so it resumes promptly.
pub const IDLE_TICK_MS: u64 = 10;

/// The fields the closed-loop controller shares with the foreground calls:
/// the requested linear speed (millimeters per second equivalent units) and
/// the power percentage currently issued to the device.
pub struct MotorProperties {
    pub target_mm_per_s: i32,
    pub current_percentage: i32,
}

/// Speed units requested per expected encoder tick per cycle: one light
/// barrier break is 1.125 cm of travel, and the target is divided by 9 and
/// then by 10; both divisors are physical calibration constants whose
/// numeric form matters, so they are not folded together.
pub open spec fn speed_target_of(target: int) -> int {
    target / 9 / 10
}

/// The raw encoder tick delta projected onto the direction of travel that
/// the speed target implies.
pub open spec fn measured_rate_of(relative_ticks: int, speed_target: int) -> int {
    if speed_target > 0 {
        relative_ticks
    } else if speed_target < 0 {
        -relative_ticks
    } else {
        0
    }
}

/// One bang-bang controller adjustment: move the power by exactly two
/// percentage points toward the target rate, holding at the band edges.
pub open spec fn next_power_of(current: int, measured_rate: int, speed_target: int) -> int {
    if measured_rate > speed_target && current - 2 > -100 {
        current - 2
    } else if measured_rate < speed_target && current + 2 < 100 {
        current + 2
    } else {
        current
    }
}

/// The bootstrap power issued when a new closed-loop target is accepted:
/// zero for a zero speed, otherwise a tenth of the speed (truncated toward
/// zero) plus fifty points in the direction of travel.  The formula is a
/// physical calibration; its numeric form matters.
pub open spec fn bootstrap_power_of(speed: int) -> int {
    if speed == 0 {
        0
    } else if speed > 0 {
        speed / 10 + 50
    } else {
        -((-speed) / 10) - 50
    }
}

/// The power percentage band the controller must never leave.
pub open spec fn power_in_band(p: int) -> bool {
    -100 <= p <= 100
}

impl MotorProperties {
    pub fn new() -> (r: MotorProperties)
        ensures
            r.target_mm_per_s == 0,
            r.current_percentage == 0,
    {
        MotorProperties { target_mm_per_s: 0, current_percentage: 0 }
    }

    pub fn get_target(&self) -> (r: i32)
        ensures
            r == self.target_mm_per_s,
    {
        self.target_mm_per_s
    }

    pub fn set_target(&mut self, new_target: i32)
        ensures
            final(self).target_mm_per_s == new_target,
            final(self).current_percentage == old(self).current_percentage,
    {
        self.target_mm_per_s = new_target;
    }

    pub fn get_current(&self) -> (r: i32)
        ensures
            r == self.current_percentage,
    {
        self.current_percentage
    }

    pub fn set_current(&mut self, new_percentage: i32)
        ensures
            final(self).current_percentage == new_percentage,
            final(self).target_mm_per_s == old(self).target_mm_per_s,
    {
        self.current_percentage = new_percentage;
    }

    /// One enabled controller cycle: convert the target speed to an
    /// expected tick rate, project the encoder delta onto the direction of
    /// travel, and nudge the current power by two points, holding at the
    /// band edges.  Returns the power to write to the device this cycle.
    pub fn control_step(&mut self, relative_ticks: i64) -> (power: i32)
        requires
            relative_ticks > i64::MIN,
        ensures
            final(self).target_mm_per_s == old(self).target_mm_per_s,
            final(self).current_percentage == power,
            power as int == next_power_of(
                old(self).current_percentage as int,
                measured_rate_of(
                    relative_ticks as int,
                    speed_target_of(old(self).target_mm_per_s as int),
                ),
                speed_target_of(old(self).target_mm_per_s as int),
            ),
            power_in_band(old(self).current_percentage as int) ==> power_in_band(power as int),
    {
        let speed_target = div_floor_small(self.target_mm_per_s);
        let rate: i64 = if speed_target > 0 {
            relative_ticks
        } else if speed_target < 0 {
            -relative_ticks
        } else {
            0
        };
        let current: i64 = self.current_percentage as i64;
        let power: i64 = if rate > speed_target as i64 && current - 2 > -100 {
            current - 2
        } else if rate < speed_target as i64 && current + 2 < 100 {
            current + 2
        } else {
            current
        };
        let power: i32 = power as i32;
        self.current_percentage = power;
        power
    }
}

/// One motor actuator's shared record: the controller fields, whether the
/// closed-loop controller is active, and the last target speed accepted by
/// the foreground closed-loop call (used to suppress redundant writes).
pub struct MotorState {
    pub properties: MotorProperties,
    pub speed_control_activated: bool,
    pub prev_speed: i32,
}

/// The state after a foreground closed-loop call: control comes on, and a
/// speed different from the last accepted one installs a new target with
/// its bootstrap power and is recorded; the same speed changes nothing
/// else.
pub open spec fn spec_set_target(s: MotorState, new_speed: i32) -> MotorState {
    if new_speed == s.prev_speed {
        MotorState { speed_control_activated: true, ..s }
    } else {
        MotorState {
            properties: MotorProperties {
                target_mm_per_s: new_speed,
                current_percentage: bootstrap_power_of(new_speed as int) as i32,
            },
            speed_control_activated: true,
            prev_speed: new_speed,
        }
    }
}

/// The device write a foreground closed-loop call issues: the bootstrap
/// power for a fresh speed, none for a repeated one.
pub open spec fn spec_target_write(s: MotorState, new_speed: i32) -> Option<i32> {
    if new_speed == s.prev_speed {
        None
    } else {
        Some((bootstrap_power_of(new_speed as int) as i32))
    }
}

impl MotorState {
    pub fn new() -> (r: MotorState)
        ensures
            r.properties.target_mm_per_s == 0,
            r.properties.current_percentage == 0,
            r.speed_control_activated == false,
            r.prev_speed == 0,
    {
        MotorState {
            properties: MotorProperties::new(),
            speed_control_activated: false,
            prev_speed: 0,
        }
    }

    pub fn set_speed_control(&mut self, activated: bool)
        ensures
            final(self).speed_control_activated == activated,
            final(self).properties == old(self).properties,
            final(self).prev_speed == old(self).prev_speed,
    {
        self.speed_control_activated = activated;
    }

    /// Enable closed-loop control and, if `new_speed` differs from the
    /// last accepted speed, install it as the target with its bootstrap
    /// power estimate.  Returns the power to write to the device, or
    /// `None` when the call is a suppressed repeat.
    pub fn set_target_and_estimate(&mut self, new_speed: i32) -> (write: Option<i32>)
        ensures
            *final(self) == spec_set_target(*old(self), new_speed),
            write == spec_target_write(*old(self), new_speed),
    {
        self.set_speed_control(true);
        if new_speed != self.prev_speed {
            self.properties.set_target(new_speed);
            let new_power = initial_power_estimate(new_speed);
            self.properties.set_current(new_power);
            self.prev_speed = new_speed;
            Some(new_power)
        } else {
            None
        }
    }

    /// Disable closed-loop control, zero the shared record, and issue
    /// `speed` as a direct open-loop power.  Returns the power to write to
    /// the device.
    pub fn set_direct_speed(&mut self, speed: i32) -> (write: i32)
        ensures
            final(self).speed_control_activated == false,
            final(self).properties.target_mm_per_s == 0,
            final(self).properties.current_percentage == 0,
            final(self).prev_speed == 0,
            write == speed,
    {
        self.set_speed_control(false);
        self.properties.set_target(0);
        self.properties.set_current(0);
        self.prev_speed = 0;
        speed
    }
}

/// Setting the same closed-loop target twice issues exactly one device
/// write: after a first call with some speed, a second call with the same
/// speed issues no write and leaves the state as the first call left it.
pub proof fn lemma_set_target_idempotent(s: MotorState, new_speed: i32)
    ensures
        spec_target_write(spec_set_target(s, new_speed), new_speed) is None,
        spec_set_target(spec_set_target(s, new_speed), new_speed) == spec_set_target(s, new_speed),
{
}

/// The bootstrap power for a freshly accepted target speed.
pub fn initial_power_estimate(speed: i32) -> (power: i32)
    ensures
        power as int == bootstrap_power_of(speed as int),
{
    if speed == 0 {
        0
    } else {
        let s: i64 = speed as i64;
        let mag: i64 = if s > 0 {
            s
        } else {
            -s
        };
        proof {
            lemma_div_bounds_small(mag as int, 10);
            lemma_div_is_ordered(mag as int, 0x8000_0000, 10);
        }
        let q: i64 = match mag.checked_div(10) {
            Some(q) => q,
            None => 0,
        };
        let p: i64 = if s > 0 {
            q + 50
        } else {
            -q - 50
        };
        p as i32
    }
}

/// One full cycle of the enabled background controller: take the encoder
/// delta against the last cumulative tick count, remember the new count,
/// and run the controller adjustment.  Returns the power to write to the
/// device this cycle.
pub fn control_cycle(
    properties: &mut MotorProperties,
    last_ticks: &mut i32,
    current_ticks: i32,
) -> (power: i32)
    ensures
        *final(last_ticks) == current_ticks,
        final(properties).target_mm_per_s == old(properties).target_mm_per_s,
        final(properties).current_percentage == power,
        power as int == next_power_of(
            old(properties).current_percentage as int,
            measured_rate_of(
                current_ticks - *old(last_ticks),
                speed_target_of(old(properties).target_mm_per_s as int),
            ),
            speed_target_of(old(properties).target_mm_per_s as int),
        ),
        power_in_band(old(properties).current_percentage as int) ==> power_in_band(power as int),
{
    let relative: i64 = current_ticks as i64 - *last_ticks as i64;
    *last_ticks = current_ticks;
    properties.control_step(relative)
}

/// One poll of the background controller loop: while closed-loop control
/// is off the controller is dormant and touches nothing — in particular
/// it never modifies the current power; while it is on, it runs one full
/// cycle.  Returns the power to write to the device, or `None` for a
/// dormant poll.
pub fn controller_poll(
    state: &mut MotorState,
    last_ticks: &mut i32,
    current_ticks: i32,
) -> (write: Option<i32>)
    ensures
        !old(state).speed_control_activated ==> {
            &&& *final(state) == *old(state)
            &&& *final(last_ticks) == *old(last_ticks)
            &&& write is None
        },
        old(state).speed_control_activated ==> {
            &&& final(state).speed_control_activated == old(state).speed_control_activated
            &&& final(state).prev_speed == old(state).prev_speed
            &&& final(state).properties.target_mm_per_s == old(
                state,
            ).properties.target_mm_per_s
            &&& *final(last_ticks) == current_ticks
            &&& write == Some(final(state).properties.current_percentage)
            &&& final(state).properties.current_percentage as int == next_power_of(
                old(state).properties.current_percentage as int,
                measured_rate_of(
                    current_ticks - *old(last_ticks),
                    speed_target_of(old(state).properties.target_mm_per_s as int),
                ),
                speed_target_of(old(state).properties.target_mm_per_s as int),
            )
            &&& power_in_band(old(state).properties.current_percentage as int)
                ==> power_in_band(final(state).properties.current_percentage as int)
        },
{
    if state.speed_control_activated {
        let relative: i64 = current_ticks as i64 - *last_ticks as i64;
        *last_ticks = current_ticks;
        let power = state.properties.control_step(relative);
        Some(power)
    } else {
        None
    }
}

/// Floor division of the target speed by 9 and then by 10, the calibration
/// chain of the closed-loop controller.
fn div_floor_small(target: i32) -> (r: i32)
    ensures
        r as int == speed_target_of(target as int),
{
    let t: i64 = target as i64;
    proof {
        lemma_div_bounds_small(t as int, 9);
    }
    let a: i64 = match t.checked_div_euclid(9) {
        Some(q) => q,
        None => 0,
    };
    proof {
        lemma_div_bounds_small(a as int, 10);
    }
    let r64: i64 = match a.checked_div_euclid(10) {
        Some(q) => q,
        None => 0,
    };
    r64 as i32
}

/// For a divisor of at least one, the quotient of `x` stays between
/// `-|x|` and `|x|`.
proof fn lemma_div_bounds_small(x: int, d: int)
    requires
        d >= 1,
    ensures
        x >= 0 ==> 0 <= x / d <= x,
        x < 0 ==> x <= x / d <= 0,
{
    if x >= 0 {
        lemma_div_pos_is_pos(x, d);
        vstd::arithmetic::div_mod::lemma_div_nonincreasing(x, d);
    } else {
        lemma_div_is_ordered(x, 0, d);
        assert(0int / d == 0) by {
            vstd::arithmetic::div_mod::lemma_div_of0(d);
        }
        assert(x / d >= x) by {
            vstd::arithmetic::div_mod::lemma_fundamental_div_mod(x, d);
            vstd::arithmetic::div_mod::lemma_mod_bound(x, d);
            assert(x == d * (x / d) + x % d);
            assert(x / d >= x) by (nonlinear_arith)
                requires
                    d >= 1,
                    x < 0,
                    x == d * (x / d) + x % d,
                    0 <= x % d < d,
            ;
        }
    }
}

} // verus!
