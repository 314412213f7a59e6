//! The engine's records, field for field, as plain data.
//!
//! Each type here has the fields of the record of the same name that the
//! engine reads and writes, in the same order, with every single-precision
//! number held as a [`Scalar`]. Nothing here interprets a field: these are
//! the values exactly as they cross the engine's boundary.
//!
//! The layouts are those that version 0.34 of the `rocketsim_rs` crate
//! declares. Two things differ in form only: the four wheel flags of a car
//! are a record of four fields where the engine has an array of four, and a
//! vector leaves out the fourth lane with which the engine pads it, which
//! the engine keeps at zero and shows to nobody.

use vstd::prelude::*;
use crate::scalar::Scalar;

verus! {

/// A point or direction in the engine's coordinates.
#[derive(Clone, Copy, Debug, PartialEq, Eq, Structural)]
pub struct Vec3 {
    pub x: Scalar,
    pub y: Scalar,
    pub z: Scalar,
}

/// An orientation as three basis vectors.
#[derive(Clone, Copy, Debug, PartialEq, Eq, Structural)]
pub struct RotMat {
    pub forward: Vec3,
    pub right: Vec3,
    pub up: Vec3,
}

/// The side a car plays for.
#[derive(Clone, Copy, Debug, PartialEq, Eq, Structural)]
pub enum Team {
    Blue,
    Orange,
}

/// The rule sets and pitches the engine knows.
#[derive(Clone, Copy, Debug, PartialEq, Eq, Structural)]
pub enum GameMode {
    Soccar,
    Hoops,
    Heatseeker,
    Snowday,
    Dropshot,
    TheVoid,
}

/// One tick's worth of driver input.
#[derive(Clone, Copy, Debug, PartialEq, Eq, Structural)]
pub struct CarControls {
    pub throttle: Scalar,
    pub steer: Scalar,
    pub pitch: Scalar,
    pub yaw: Scalar,
    pub roll: Scalar,
    pub jump: bool,
    pub boost: bool,
    pub handbrake: bool,
}

/// What the engine recorded about a car's latest touch of the ball.
#[derive(Clone, Copy, Debug, PartialEq, Eq, Structural)]
pub struct BallHitInfo {
    pub is_valid: bool,
    pub relative_pos_on_ball: Vec3,
    pub ball_pos: Vec3,
    pub extra_hit_vel: Vec3,
    pub tick_count_when_hit: u64,
    pub tick_count_when_extra_impulse_applied: u64,
}

/// Ball bookkeeping of the heatseeker rule set.
#[derive(Clone, Copy, Debug, PartialEq, Eq, Structural)]
pub struct HeatseekerInfo {
    pub y_target_dir: Scalar,
    pub cur_target_speed: Scalar,
    pub time_since_hit: Scalar,
}

/// The ball as the engine keeps it.
#[derive(Clone, Copy, Debug, PartialEq, Eq, Structural)]
pub struct BallState {
    pub pos: Vec3,
    pub rot_mat: RotMat,
    pub vel: Vec3,
    pub ang_vel: Vec3,
    pub update_counter: u64,
    pub hs_info: HeatseekerInfo,
}

/// Geometry of one axle.
#[derive(Clone, Copy, Debug, PartialEq, Eq, Structural)]
pub struct WheelPairConfig {
    pub wheel_radius: Scalar,
    pub suspension_rest_length: Scalar,
    pub connection_point_offset: Vec3,
}

/// Body and suspension geometry of a car.
#[derive(Clone, Copy, Debug, PartialEq, Eq, Structural)]
pub struct CarConfig {
    pub hitbox_size: Vec3,
    pub hitbox_pos_offset: Vec3,
    pub front_wheels: WheelPairConfig,
    pub back_wheels: WheelPairConfig,
    pub dodge_deadzone: Scalar,
}

/// Contact of a car with the pitch.
#[derive(Clone, Copy, Debug, PartialEq, Eq, Structural)]
pub struct WorldContact {
    pub has_contact: bool,
    pub contact_normal: Vec3,
}

/// Contact of a car with another car. An `other_car_id` of zero means none.
#[derive(Clone, Copy, Debug, PartialEq, Eq, Structural)]
pub struct CarContact {
    pub other_car_id: u32,
    pub cooldown_timer: Scalar,
}

/// Which of the four wheels touch something, one flag per wheel in the
/// engine's wheel order.
#[derive(Clone, Copy, Debug, PartialEq, Eq, Structural)]
pub struct WheelContacts {
    pub first: bool,
    pub second: bool,
    pub third: bool,
    pub fourth: bool,
}

/// A car as the engine keeps it.
#[derive(Clone, Copy, Debug, PartialEq, Eq, Structural)]
pub struct CarState {
    pub pos: Vec3,
    pub rot_mat: RotMat,
    pub vel: Vec3,
    pub ang_vel: Vec3,
    pub update_counter: u64,
    pub is_on_ground: bool,
    pub wheels_with_contact: WheelContacts,
    pub has_jumped: bool,
    pub has_double_jumped: bool,
    pub has_flipped: bool,
    pub flip_rel_torque: Vec3,
    pub jump_time: Scalar,
    pub flip_time: Scalar,
    pub is_flipping: bool,
    pub is_jumping: bool,
    pub air_time: Scalar,
    pub air_time_since_jump: Scalar,
    pub boost: Scalar,
    pub time_spent_boosting: Scalar,
    pub is_supersonic: bool,
    pub supersonic_time: Scalar,
    pub handbrake_val: Scalar,
    pub is_auto_flipping: bool,
    pub auto_flip_timer: Scalar,
    pub auto_flip_torque_scale: Scalar,
    pub world_contact: WorldContact,
    pub car_contact: CarContact,
    pub is_demoed: bool,
    pub demo_respawn_timer: Scalar,
    pub ball_hit_info: BallHitInfo,
    pub last_controls: CarControls,
}

/// The changing part of a boost pad. A locked car id of zero means none.
#[derive(Clone, Copy, Debug, PartialEq, Eq, Structural)]
pub struct BoostPadState {
    pub is_active: bool,
    pub cooldown: Scalar,
    pub cur_locked_car_id: u32,
    pub prev_locked_car_id: u32,
}

/// The fixed part of a boost pad.
#[derive(Clone, Copy, Debug, PartialEq, Eq, Structural)]
pub struct BoostPadConfig {
    pub position: Vec3,
    pub is_big: bool,
}

/// A boost pad, fixed and changing part together.
#[derive(Clone, Copy, Debug, PartialEq, Eq, Structural)]
pub struct BoostPad {
    pub config: BoostPadConfig,
    pub state: BoostPadState,
}

/// Everything the engine holds about one car.
#[derive(Clone, Copy, Debug, PartialEq, Eq, Structural)]
pub struct CarInfo {
    pub id: u32,
    pub team: Team,
    pub state: CarState,
    pub config: CarConfig,
}

/// Everything the engine holds about one simulation, read in one piece.
#[derive(Clone, Debug, PartialEq, Eq)]
pub struct GameState {
    pub tick_rate: Scalar,
    pub tick_count: u64,
    pub game_mode: GameMode,
    pub cars: Vec<CarInfo>,
    pub ball: BallState,
    pub pads: Vec<BoostPad>,
}

/// A [`GameState`] with its lists as sequences.
#[verifier::ext_equal]
pub struct GameStateView {
    pub tick_rate: Scalar,
    pub tick_count: u64,
    pub game_mode: GameMode,
    pub cars: Seq<CarInfo>,
    pub ball: BallState,
    pub pads: Seq<BoostPad>,
}

impl View for GameState {
    type V = GameStateView;

    open spec fn view(&self) -> GameStateView {
        GameStateView {
            tick_rate: self.tick_rate,
            tick_count: self.tick_count,
            game_mode: self.game_mode,
            cars: self.cars@,
            ball: self.ball,
            pads: self.pads@,
        }
    }
}

} // verus!
