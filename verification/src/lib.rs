//! Onboard control logic for an autonomous wheeled robot.
//!
//! The robot navigates by combining wall-distance sensing, line sensing,
//! proximity-tag detection and dead-reckoning via wheel-mounted light-barrier
//! encoders.  This crate holds the decision logic, all of it verified:
//! the per-wheel closed-loop speed controller, the open-loop direct-drive
//! path, the navigation mode state machine with its cross-mode safety
//! override, the blocking straight maneuver modelled as an explicit
//! sub-state machine, the tag-to-mode table, and the little-endian codec
//! for the 4-byte device words.
//!
//! Hardware access (device files, GPIO, SPI, signals, threads, scheduling)
//! lives outside this crate: the surrounding program reads the sensors,
//! hands the raw values to these functions, and performs the returned
//! actuator steps.

pub mod codec;
pub mod mode;
pub mod motor;
pub mod navigate;
pub mod straight;

pub use mode::Mode;
pub use mode::ModeEvent;
pub use mode::TagDecision;
pub use motor::MotorProperties;
pub use motor::MotorState;
pub use navigate::LineSensors;
pub use navigate::Step;
pub use navigate::TickOutcome;
pub use straight::StraightPhase;
