//! The navigation mode register's value space and the events that move it.
//!
//! A single process-wide cell holds the current mode as a small integer;
//! the tag-scanner loop, the emergency handler and the straight maneuver
//! all store into it, and the main loop reads it each tick.  The cell
//! itself is an atomic owned by the surrounding program; this module
//! defines the values it can hold, the conversion from the stored index,
//! the compiled-in table from proximity-tag identifiers to modes, and
//! what each mode-changing event stores.

use vstd::prelude::*;

verus! {

/// The tag-scanner loop polls the scanner this often.
pub const TAG_POLL_MS: u64 = 30;

/// The main navigation loop sleeps this long between ticks.
pub const MAIN_TICK_MS: u64 = 20;

/// The driving behavior selected each main-loop tick.  `Idle` is the
/// initial value and the one the emergency notification forces.
#[derive(Clone, Copy, PartialEq, Eq, Structural, Debug)]
pub enum Mode {
    Idle,
    WallFollowing,
    LineFollowing,
    BetweenLines,
    Straight,
    EndOfRamp,
    TopOfRamp,
}

/// The index under which each mode is stored in the shared register cell.
pub open spec fn mode_index_of(m: Mode) -> int {
    match m {
        Mode::Idle => 0,
        Mode::WallFollowing => 1,
        Mode::LineFollowing => 2,
        Mode::BetweenLines => 3,
        Mode::Straight => 4,
        Mode::EndOfRamp => 5,
        Mode::TopOfRamp => 6,
    }
}

impl Mode {
    /// The mode stored under a register index.  Only the seven used
    /// indices are meaningful; nothing else is ever stored.
    pub fn from(val: usize) -> (r: Mode)
        requires
            val <= 6,
        ensures
            mode_index_of(r) == val,
    {
        match val {
            0 => Mode::Idle,
            1 => Mode::WallFollowing,
            2 => Mode::LineFollowing,
            3 => Mode::BetweenLines,
            4 => Mode::Straight,
            5 => Mode::EndOfRamp,
            _ => Mode::TopOfRamp,
        }
    }

    /// The register index this mode is stored under.
    pub fn index(&self) -> (r: usize)
        ensures
            r == mode_index_of(*self),
    {
        match self {
            Mode::Idle => 0,
            Mode::WallFollowing => 1,
            Mode::LineFollowing => 2,
            Mode::BetweenLines => 3,
            Mode::Straight => 4,
            Mode::EndOfRamp => 5,
            Mode::TopOfRamp => 6,
        }
    }
}

/// Storing a mode and reading it back yields the same mode, for every
/// mode: the register round-trips through its index representation.
pub proof fn lemma_mode_index_round_trip(m: Mode)
    ensures
        forall|n: Mode| mode_index_of(m) == mode_index_of(n) ==> m == n,
        0 <= mode_index_of(m) <= 6,
{
}

/// An asynchronous event that stores into the mode register from outside
/// the main loop's own dispatch.
#[derive(Clone, Copy, PartialEq, Eq, Structural, Debug)]
pub enum ModeEvent {
    /// The emergency notification fired.
    Emergency,
    /// The tag-scanner loop committed a recognized tag's mode.
    TagCommitted(Mode),
    /// The straight maneuver counted its last line crossing.
    StraightFinished,
}

/// The mode an event stores, whatever mode was current: the emergency
/// notification and a finished straight maneuver force `Idle`; a committed
/// tag stores its mapped mode.  Nothing else about the process is touched.
pub fn apply_mode_event(current: Mode, event: ModeEvent) -> (r: Mode)
    ensures
        event is Emergency ==> r == Mode::Idle,
        event is StraightFinished ==> r == Mode::Idle,
        forall|m: Mode| event == ModeEvent::TagCommitted(m) ==> r == m,
{
    match event {
        ModeEvent::Emergency => Mode::Idle,
        ModeEvent::TagCommitted(m) => m,
        ModeEvent::StraightFinished => Mode::Idle,
    }
}

/// What a recognized proximity tag asks of the mode register: the mode to
/// store and how long to wait between detection and the store.
#[derive(Clone, Copy, PartialEq, Eq, Structural, Debug)]
pub struct TagDecision {
    pub mode: Mode,
    pub delay_ms: u64,
}

/// The compiled-in table from 4-byte tag identifiers to modes.  One entry,
/// the end-of-ramp tag, commits only after a 400 ms delay, compensating
/// for the tag-to-sensor travel distance; every other entry commits at
/// once.  An unrecognized identifier asks nothing.
pub open spec fn spec_tag_decision(t: Seq<u8>) -> Option<TagDecision> {
    if t == seq![174u8, 11u8, 30u8, 43u8] {
        Some(TagDecision { mode: Mode::WallFollowing, delay_ms: 0 })
    } else if t == seq![125u8, 239u8, 33u8, 43u8] {
        Some(TagDecision { mode: Mode::LineFollowing, delay_ms: 0 })
    } else if t == seq![186u8, 23u8, 207u8, 41u8] {
        Some(TagDecision { mode: Mode::BetweenLines, delay_ms: 0 })
    } else if t == seq![183u8, 25u8, 34u8, 43u8] {
        Some(TagDecision { mode: Mode::Straight, delay_ms: 0 })
    } else if t == seq![193u8, 76u8, 3u8, 32u8] {
        Some(TagDecision { mode: Mode::EndOfRamp, delay_ms: 400 })
    } else if t == seq![195u8, 136u8, 144u8, 26u8] {
        Some(TagDecision { mode: Mode::TopOfRamp, delay_ms: 0 })
    } else {
        None
    }
}

/// Look a scanned 4-byte tag identifier up in the compiled-in table.
pub fn tag_decision(tag: &[u8; 4]) -> (r: Option<TagDecision>)
    ensures
        r == spec_tag_decision(tag@),
{
    proof {
        assert(tag@.len() == 4);
        assert(tag@ == seq![tag@[0], tag@[1], tag@[2], tag@[3]]) by {
            assert(tag@ =~= seq![tag@[0], tag@[1], tag@[2], tag@[3]]);
        }
    }
    let b0 = tag[0];
    let b1 = tag[1];
    let b2 = tag[2];
    let b3 = tag[3];
    if b0 == 174 && b1 == 11 && b2 == 30 && b3 == 43 {
        proof { lemma_four_bytes(tag@, 174, 11, 30, 43); }
        Some(TagDecision { mode: Mode::WallFollowing, delay_ms: 0 })
    } else if b0 == 125 && b1 == 239 && b2 == 33 && b3 == 43 {
        proof { lemma_four_bytes(tag@, 125, 239, 33, 43); }
        Some(TagDecision { mode: Mode::LineFollowing, delay_ms: 0 })
    } else if b0 == 186 && b1 == 23 && b2 == 207 && b3 == 41 {
        proof { lemma_four_bytes(tag@, 186, 23, 207, 41); }
        Some(TagDecision { mode: Mode::BetweenLines, delay_ms: 0 })
    } else if b0 == 183 && b1 == 25 && b2 == 34 && b3 == 43 {
        proof { lemma_four_bytes(tag@, 183, 25, 34, 43); }
        Some(TagDecision { mode: Mode::Straight, delay_ms: 0 })
    } else if b0 == 193 && b1 == 76 && b2 == 3 && b3 == 32 {
        proof { lemma_four_bytes(tag@, 193, 76, 3, 32); }
        Some(TagDecision { mode: Mode::EndOfRamp, delay_ms: 400 })
    } else if b0 == 195 && b1 == 136 && b2 == 144 && b3 == 26 {
        proof { lemma_four_bytes(tag@, 195, 136, 144, 26); }
        Some(TagDecision { mode: Mode::TopOfRamp, delay_ms: 0 })
    } else {
        None
    }
}

/// A length-four byte sequence equals the literal sequence of its bytes,
/// and differs from a literal sequence wherever one byte differs.
proof fn lemma_four_bytes(t: Seq<u8>, b0: u8, b1: u8, b2: u8, b3: u8)
    requires
        t.len() == 4,
        t[0] == b0,
        t[1] == b1,
        t[2] == b2,
        t[3] == b3,
    ensures
        t == seq![b0, b1, b2, b3],
{
    assert(t =~= seq![b0, b1, b2, b3]);
}

} // verus!
