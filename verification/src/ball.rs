//! The ball, and the record of a car's latest touch of it.

use vstd::prelude::*;
use crate::math::Vec3;
use crate::native;

verus! {

/// What the engine recorded about a car's latest touch of the ball.
#[derive(Clone, Copy, Debug, PartialEq, Eq, Structural)]
pub struct BallHitInfo {
    pub is_valid: bool,
    pub relative_pos_on_ball: Vec3,
    pub ball_pos: Vec3,
    pub extra_hit_vel: Vec3,
    pub tick_count_when_hit: u64,
    pub tick_count_when_extra_impulse_applied: u64,
}

/// The vector given, or the origin where none is.
pub open spec fn vec3_or_zero(v: Option<Vec3>) -> Vec3 {
    match v {
        Some(v) => v,
        None => Vec3::zero_spec(),
    }
}

pub(crate) fn unwrap_vec3(v: Option<Vec3>) -> (r: Vec3)
    ensures
        r == vec3_or_zero(v),
{
    match v {
        Some(v) => v,
        None => Vec3::zero(),
    }
}

impl BallHitInfo {
    /// No touch yet: not valid, every vector at the origin, both ticks zero.
    pub open spec fn default_spec() -> BallHitInfo {
        BallHitInfo {
            is_valid: false,
            relative_pos_on_ball: Vec3::zero_spec(),
            ball_pos: Vec3::zero_spec(),
            extra_hit_vel: Vec3::zero_spec(),
            tick_count_when_hit: 0,
            tick_count_when_extra_impulse_applied: 0,
        }
    }

    /// Builds a record from a host's arguments; a vector left out is the
    /// origin.
    pub fn new(
        is_valid: bool,
        relative_pos_on_ball: Option<Vec3>,
        ball_pos: Option<Vec3>,
        extra_hit_vel: Option<Vec3>,
        tick_count_when_hit: u64,
        tick_count_when_extra_impulse_applied: u64,
    ) -> (r: BallHitInfo)
        ensures
            r == (BallHitInfo {
                is_valid,
                relative_pos_on_ball: vec3_or_zero(relative_pos_on_ball),
                ball_pos: vec3_or_zero(ball_pos),
                extra_hit_vel: vec3_or_zero(extra_hit_vel),
                tick_count_when_hit,
                tick_count_when_extra_impulse_applied,
            }),
    {
        BallHitInfo {
            is_valid,
            relative_pos_on_ball: unwrap_vec3(relative_pos_on_ball),
            ball_pos: unwrap_vec3(ball_pos),
            extra_hit_vel: unwrap_vec3(extra_hit_vel),
            tick_count_when_hit,
            tick_count_when_extra_impulse_applied,
        }
    }

    pub open spec fn from_native_spec(hit: native::BallHitInfo) -> BallHitInfo {
        BallHitInfo {
            is_valid: hit.is_valid,
            relative_pos_on_ball: Vec3::from_native_spec(hit.relative_pos_on_ball),
            ball_pos: Vec3::from_native_spec(hit.ball_pos),
            extra_hit_vel: Vec3::from_native_spec(hit.extra_hit_vel),
            tick_count_when_hit: hit.tick_count_when_hit,
            tick_count_when_extra_impulse_applied: hit.tick_count_when_extra_impulse_applied,
        }
    }

    pub open spec fn to_native_spec(self) -> native::BallHitInfo {
        native::BallHitInfo {
            is_valid: self.is_valid,
            relative_pos_on_ball: self.relative_pos_on_ball.to_native_spec(),
            ball_pos: self.ball_pos.to_native_spec(),
            extra_hit_vel: self.extra_hit_vel.to_native_spec(),
            tick_count_when_hit: self.tick_count_when_hit,
            tick_count_when_extra_impulse_applied: self.tick_count_when_extra_impulse_applied,
        }
    }

    /// The host's copy of an engine record.
    pub fn from_native(hit: &native::BallHitInfo) -> (r: BallHitInfo)
        ensures
            r == BallHitInfo::from_native_spec(*hit),
    {
        BallHitInfo {
            is_valid: hit.is_valid,
            relative_pos_on_ball: Vec3::from_native(hit.relative_pos_on_ball),
            ball_pos: Vec3::from_native(hit.ball_pos),
            extra_hit_vel: Vec3::from_native(hit.extra_hit_vel),
            tick_count_when_hit: hit.tick_count_when_hit,
            tick_count_when_extra_impulse_applied: hit.tick_count_when_extra_impulse_applied,
        }
    }

    /// The engine's copy of this record.
    pub fn to_native(&self) -> (r: native::BallHitInfo)
        ensures
            r == self.to_native_spec(),
    {
        native::BallHitInfo {
            is_valid: self.is_valid,
            relative_pos_on_ball: self.relative_pos_on_ball.to_native(),
            ball_pos: self.ball_pos.to_native(),
            extra_hit_vel: self.extra_hit_vel.to_native(),
            tick_count_when_hit: self.tick_count_when_hit,
            tick_count_when_extra_impulse_applied: self.tick_count_when_extra_impulse_applied,
        }
    }
}

impl Default for BallHitInfo {
    /// No touch yet.
    fn default() -> (r: BallHitInfo)
        ensures
            r == BallHitInfo::default_spec(),
    {
        BallHitInfo {
            is_valid: false,
            relative_pos_on_ball: Vec3::zero(),
            ball_pos: Vec3::zero(),
            extra_hit_vel: Vec3::zero(),
            tick_count_when_hit: 0,
            tick_count_when_extra_impulse_applied: 0,
        }
    }
}

/// The ball's motion: where it is, how fast it moves and how fast it spins.
///
/// The engine keeps more about the ball than a host sets through this
/// record: its orientation, an update counter and rule-set bookkeeping. A
/// host reads the orientation separately and never touches the rest.
#[derive(Clone, Copy, Debug, PartialEq, Eq, Structural)]
pub struct Ball {
    pub pos: Vec3,
    pub vel: Vec3,
    pub ang_vel: Vec3,
}

impl Ball {
    /// At rest at the origin.
    pub open spec fn default_spec() -> Ball {
        Ball { pos: Vec3::zero_spec(), vel: Vec3::zero_spec(), ang_vel: Vec3::zero_spec() }
    }

    /// Builds a ball from a host's arguments; a vector left out is the
    /// origin.
    pub fn new(pos: Option<Vec3>, vel: Option<Vec3>, ang_vel: Option<Vec3>) -> (r: Ball)
        ensures
            r == (Ball {
                pos: vec3_or_zero(pos),
                vel: vec3_or_zero(vel),
                ang_vel: vec3_or_zero(ang_vel),
            }),
    {
        Ball { pos: unwrap_vec3(pos), vel: unwrap_vec3(vel), ang_vel: unwrap_vec3(ang_vel) }
    }

    pub open spec fn from_native_spec(ball: native::BallState) -> Ball {
        Ball {
            pos: Vec3::from_native_spec(ball.pos),
            vel: Vec3::from_native_spec(ball.vel),
            ang_vel: Vec3::from_native_spec(ball.ang_vel),
        }
    }

    /// `base` with the three vectors of this record written over its own.
    pub open spec fn to_native_spec(self, base: native::BallState) -> native::BallState {
        native::BallState {
            pos: self.pos.to_native_spec(),
            vel: self.vel.to_native_spec(),
            ang_vel: self.ang_vel.to_native_spec(),
            ..base
        }
    }

    /// The host's view of the engine's ball.
    pub fn from_native(ball: &native::BallState) -> (r: Ball)
        ensures
            r == Ball::from_native_spec(*ball),
    {
        Ball {
            pos: Vec3::from_native(ball.pos),
            vel: Vec3::from_native(ball.vel),
            ang_vel: Vec3::from_native(ball.ang_vel),
        }
    }

    /// The ball to hand to the engine: `base`, which is the ball as the
    /// engine has it now, with position, velocity and spin replaced by this
    /// record's. What a host cannot see stays as the engine had it.
    pub fn to_native(&self, base: &native::BallState) -> (r: native::BallState)
        ensures
            r == self.to_native_spec(*base),
    {
        native::BallState {
            pos: self.pos.to_native(),
            rot_mat: base.rot_mat,
            vel: self.vel.to_native(),
            ang_vel: self.ang_vel.to_native(),
            update_counter: base.update_counter,
            hs_info: base.hs_info,
        }
    }
}

impl Default for Ball {
    /// At rest at the origin.
    fn default() -> (r: Ball)
        ensures
            r == Ball::default_spec(),
    {
        Ball { pos: Vec3::zero(), vel: Vec3::zero(), ang_vel: Vec3::zero() }
    }
}

} // verus!
