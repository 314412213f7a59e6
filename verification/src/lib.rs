//! Plain-data core of a scripting-host binding for a vehicle and ball
//! physics simulator.
//!
//! The simulator itself is a foreign engine; this crate holds what the
//! binding decides: the records a host sees, the records the engine keeps,
//! the conversions between the two, and the rules by which a request to a
//! simulation handle is accepted or turned down.

pub mod scalar;
pub mod native;
pub mod math;
pub mod kinds;
pub mod ball;
pub mod config;
pub mod car;
pub mod pad;
pub mod error;
pub mod state;
pub mod arena;
pub mod callback;
pub mod laws;

pub use crate::arena::Arena;
pub use crate::ball::{Ball, BallHitInfo};
pub use crate::callback::GoalScoredCallback;
pub use crate::car::Car;
pub use crate::config::{CarConfig, CarControls, WheelPairConfig};
pub use crate::error::LookupError;
pub use crate::kinds::{GameMode, Team};
pub use crate::math::{RotMat, Vec3};
pub use crate::pad::{BoostPad, BoostPadState, BoostPadStatic};
pub use crate::scalar::Scalar;
pub use crate::state::{CarInfo, GameState};
