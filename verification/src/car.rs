//! A car's state as a host reads and writes it.

use vstd::prelude::*;
use crate::ball::{unwrap_vec3, vec3_or_zero, BallHitInfo};
use crate::config::CarControls;
use crate::math::{RotMat, Vec3};
use crate::native;
use crate::scalar::Scalar;

verus! {

/// Pose, motion, flags, timers, contacts and last input of one car.
///
/// The engine keeps a little more about a car than this record shows: an
/// update counter, which wheels touch, whether a flip is under way and the
/// time in the air. A host never sets those; see [`Car::to_native`].
#[derive(Clone, Copy, Debug, PartialEq, Eq, Structural)]
pub struct Car {
    pub pos: Vec3,
    pub rot_mat: RotMat,
    pub vel: Vec3,
    pub ang_vel: Vec3,
    pub is_on_ground: bool,
    pub has_jumped: bool,
    pub has_double_jumped: bool,
    pub has_flipped: bool,
    pub last_rel_dodge_torque: Vec3,
    pub jump_time: Scalar,
    pub flip_time: Scalar,
    pub is_jumping: bool,
    pub air_time_since_jump: Scalar,
    pub boost: Scalar,
    pub time_spent_boosting: Scalar,
    pub is_supersonic: bool,
    pub supersonic_time: Scalar,
    pub handbrake_val: Scalar,
    pub is_auto_flipping: bool,
    pub auto_flip_timer: Scalar,
    pub auto_flip_torque_scale: Scalar,
    pub has_contact: bool,
    pub contact_normal: Vec3,
    pub other_car_id: u32,
    pub cooldown_timer: Scalar,
    pub is_demoed: bool,
    pub demo_respawn_timer: Scalar,
    pub ball_hit_info: BallHitInfo,
    pub last_controls: CarControls,
}

/// The orientation given, or the identity where none is.
pub open spec fn rot_mat_or_identity(m: Option<RotMat>) -> RotMat {
    match m {
        Some(m) => m,
        None => RotMat::identity_spec(),
    }
}

/// The hit record given, or the empty one where none is.
pub open spec fn hit_info_or_default(hit: Option<BallHitInfo>) -> BallHitInfo {
    match hit {
        Some(hit) => hit,
        None => BallHitInfo::default_spec(),
    }
}

/// The input given, or hands off where none is.
pub open spec fn controls_or_default(controls: Option<CarControls>) -> CarControls {
    match controls {
        Some(controls) => controls,
        None => CarControls::default_spec(),
    }
}

impl Car {
    /// A car at the origin, aligned with the world, at rest, every flag
    /// clear, every timer zero, no boost, touching nothing.
    pub open spec fn default_spec() -> Car {
        Car {
            pos: Vec3::zero_spec(),
            rot_mat: RotMat::identity_spec(),
            vel: Vec3::zero_spec(),
            ang_vel: Vec3::zero_spec(),
            is_on_ground: false,
            has_jumped: false,
            has_double_jumped: false,
            has_flipped: false,
            last_rel_dodge_torque: Vec3::zero_spec(),
            jump_time: Scalar::zero_spec(),
            flip_time: Scalar::zero_spec(),
            is_jumping: false,
            air_time_since_jump: Scalar::zero_spec(),
            boost: Scalar::zero_spec(),
            time_spent_boosting: Scalar::zero_spec(),
            is_supersonic: false,
            supersonic_time: Scalar::zero_spec(),
            handbrake_val: Scalar::zero_spec(),
            is_auto_flipping: false,
            auto_flip_timer: Scalar::zero_spec(),
            auto_flip_torque_scale: Scalar::zero_spec(),
            has_contact: false,
            contact_normal: Vec3::zero_spec(),
            other_car_id: 0,
            cooldown_timer: Scalar::zero_spec(),
            is_demoed: false,
            demo_respawn_timer: Scalar::zero_spec(),
            ball_hit_info: BallHitInfo::default_spec(),
            last_controls: CarControls::default_spec(),
        }
    }

    /// Builds a car from a host's arguments. A vector left out is the
    /// origin, an orientation left out is the identity, a hit record left
    /// out is empty and an input left out is hands off; every other field
    /// is as given.
    pub fn new(
        pos: Option<Vec3>,
        rot_mat: Option<RotMat>,
        vel: Option<Vec3>,
        ang_vel: Option<Vec3>,
        is_on_ground: bool,
        has_jumped: bool,
        has_double_jumped: bool,
        has_flipped: bool,
        last_rel_dodge_torque: Option<Vec3>,
        jump_time: Scalar,
        flip_time: Scalar,
        is_jumping: bool,
        air_time_since_jump: Scalar,
        boost: Scalar,
        time_spent_boosting: Scalar,
        is_supersonic: bool,
        supersonic_time: Scalar,
        handbrake_val: Scalar,
        is_auto_flipping: bool,
        auto_flip_timer: Scalar,
        auto_flip_torque_scale: Scalar,
        has_contact: bool,
        contact_normal: Option<Vec3>,
        other_car_id: u32,
        cooldown_timer: Scalar,
        is_demoed: bool,
        demo_respawn_timer: Scalar,
        ball_hit_info: Option<BallHitInfo>,
        last_controls: Option<CarControls>,
    ) -> (r: Car)
        ensures
            r == (Car {
                pos: vec3_or_zero(pos),
                rot_mat: rot_mat_or_identity(rot_mat),
                vel: vec3_or_zero(vel),
                ang_vel: vec3_or_zero(ang_vel),
                is_on_ground,
                has_jumped,
                has_double_jumped,
                has_flipped,
                last_rel_dodge_torque: vec3_or_zero(last_rel_dodge_torque),
                jump_time,
                flip_time,
                is_jumping,
                air_time_since_jump,
                boost,
                time_spent_boosting,
                is_supersonic,
                supersonic_time,
                handbrake_val,
                is_auto_flipping,
                auto_flip_timer,
                auto_flip_torque_scale,
                has_contact,
                contact_normal: vec3_or_zero(contact_normal),
                other_car_id,
                cooldown_timer,
                is_demoed,
                demo_respawn_timer,
                ball_hit_info: hit_info_or_default(ball_hit_info),
                last_controls: controls_or_default(last_controls),
            }),
    {
        Car {
            pos: unwrap_vec3(pos),
            rot_mat: match rot_mat {
                Some(m) => m,
                None => RotMat::identity(),
            },
            vel: unwrap_vec3(vel),
            ang_vel: unwrap_vec3(ang_vel),
            is_on_ground,
            has_jumped,
            has_double_jumped,
            has_flipped,
            last_rel_dodge_torque: unwrap_vec3(last_rel_dodge_torque),
            jump_time,
            flip_time,
            is_jumping,
            air_time_since_jump,
            boost,
            time_spent_boosting,
            is_supersonic,
            supersonic_time,
            handbrake_val,
            is_auto_flipping,
            auto_flip_timer,
            auto_flip_torque_scale,
            has_contact,
            contact_normal: unwrap_vec3(contact_normal),
            other_car_id,
            cooldown_timer,
            is_demoed,
            demo_respawn_timer,
            ball_hit_info: match ball_hit_info {
                Some(hit) => hit,
                None => BallHitInfo::default(),
            },
            last_controls: match last_controls {
                Some(controls) => controls,
                None => CarControls::default(),
            },
        }
    }

    /// The host's view of an engine car: every field a host can see, under
    /// the host's name for it, with the two contact records flattened.
    pub open spec fn from_native_spec(car: native::CarState) -> Car {
        Car {
            pos: Vec3::from_native_spec(car.pos),
            rot_mat: RotMat::from_native_spec(car.rot_mat),
            vel: Vec3::from_native_spec(car.vel),
            ang_vel: Vec3::from_native_spec(car.ang_vel),
            is_on_ground: car.is_on_ground,
            has_jumped: car.has_jumped,
            has_double_jumped: car.has_double_jumped,
            has_flipped: car.has_flipped,
            last_rel_dodge_torque: Vec3::from_native_spec(car.flip_rel_torque),
            jump_time: car.jump_time,
            flip_time: car.flip_time,
            is_jumping: car.is_jumping,
            air_time_since_jump: car.air_time_since_jump,
            boost: car.boost,
            time_spent_boosting: car.time_spent_boosting,
            is_supersonic: car.is_supersonic,
            supersonic_time: car.supersonic_time,
            handbrake_val: car.handbrake_val,
            is_auto_flipping: car.is_auto_flipping,
            auto_flip_timer: car.auto_flip_timer,
            auto_flip_torque_scale: car.auto_flip_torque_scale,
            has_contact: car.world_contact.has_contact,
            contact_normal: Vec3::from_native_spec(car.world_contact.contact_normal),
            other_car_id: car.car_contact.other_car_id,
            cooldown_timer: car.car_contact.cooldown_timer,
            is_demoed: car.is_demoed,
            demo_respawn_timer: car.demo_respawn_timer,
            ball_hit_info: BallHitInfo::from_native_spec(car.ball_hit_info),
            last_controls: CarControls::from_native_spec(car.last_controls),
        }
    }

    /// `base` with every field that a host can see replaced by this
    /// record's, and the four that it cannot see left as they are.
    pub open spec fn to_native_spec(self, base: native::CarState) -> native::CarState {
        native::CarState {
            pos: self.pos.to_native_spec(),
            rot_mat: self.rot_mat.to_native_spec(),
            vel: self.vel.to_native_spec(),
            ang_vel: self.ang_vel.to_native_spec(),
            update_counter: base.update_counter,
            is_on_ground: self.is_on_ground,
            wheels_with_contact: base.wheels_with_contact,
            has_jumped: self.has_jumped,
            has_double_jumped: self.has_double_jumped,
            has_flipped: self.has_flipped,
            flip_rel_torque: self.last_rel_dodge_torque.to_native_spec(),
            jump_time: self.jump_time,
            flip_time: self.flip_time,
            is_flipping: base.is_flipping,
            is_jumping: self.is_jumping,
            air_time: base.air_time,
            air_time_since_jump: self.air_time_since_jump,
            boost: self.boost,
            time_spent_boosting: self.time_spent_boosting,
            is_supersonic: self.is_supersonic,
            supersonic_time: self.supersonic_time,
            handbrake_val: self.handbrake_val,
            is_auto_flipping: self.is_auto_flipping,
            auto_flip_timer: self.auto_flip_timer,
            auto_flip_torque_scale: self.auto_flip_torque_scale,
            world_contact: native::WorldContact {
                has_contact: self.has_contact,
                contact_normal: self.contact_normal.to_native_spec(),
            },
            car_contact: native::CarContact {
                other_car_id: self.other_car_id,
                cooldown_timer: self.cooldown_timer,
            },
            is_demoed: self.is_demoed,
            demo_respawn_timer: self.demo_respawn_timer,
            ball_hit_info: self.ball_hit_info.to_native_spec(),
            last_controls: self.last_controls.to_native_spec(),
        }
    }

    /// The host's view of an engine car.
    pub fn from_native(car: &native::CarState) -> (r: Car)
        ensures
            r == Car::from_native_spec(*car),
    {
        Car {
            pos: Vec3::from_native(car.pos),
            rot_mat: RotMat::from_native(car.rot_mat),
            vel: Vec3::from_native(car.vel),
            ang_vel: Vec3::from_native(car.ang_vel),
            is_on_ground: car.is_on_ground,
            has_jumped: car.has_jumped,
            has_double_jumped: car.has_double_jumped,
            has_flipped: car.has_flipped,
            last_rel_dodge_torque: Vec3::from_native(car.flip_rel_torque),
            jump_time: car.jump_time,
            flip_time: car.flip_time,
            is_jumping: car.is_jumping,
            air_time_since_jump: car.air_time_since_jump,
            boost: car.boost,
            time_spent_boosting: car.time_spent_boosting,
            is_supersonic: car.is_supersonic,
            supersonic_time: car.supersonic_time,
            handbrake_val: car.handbrake_val,
            is_auto_flipping: car.is_auto_flipping,
            auto_flip_timer: car.auto_flip_timer,
            auto_flip_torque_scale: car.auto_flip_torque_scale,
            has_contact: car.world_contact.has_contact,
            contact_normal: Vec3::from_native(car.world_contact.contact_normal),
            other_car_id: car.car_contact.other_car_id,
            cooldown_timer: car.car_contact.cooldown_timer,
            is_demoed: car.is_demoed,
            demo_respawn_timer: car.demo_respawn_timer,
            ball_hit_info: BallHitInfo::from_native(&car.ball_hit_info),
            last_controls: CarControls::from_native(&car.last_controls),
        }
    }

    /// The car to hand to the engine: `base`, which is that car as the
    /// engine has it now, with every field a host can see replaced by this
    /// record's. What a host cannot see stays as the engine had it.
    pub fn to_native(&self, base: &native::CarState) -> (r: native::CarState)
        ensures
            r == self.to_native_spec(*base),
    {
        native::CarState {
            pos: self.pos.to_native(),
            rot_mat: self.rot_mat.to_native(),
            vel: self.vel.to_native(),
            ang_vel: self.ang_vel.to_native(),
            update_counter: base.update_counter,
            is_on_ground: self.is_on_ground,
            wheels_with_contact: base.wheels_with_contact,
            has_jumped: self.has_jumped,
            has_double_jumped: self.has_double_jumped,
            has_flipped: self.has_flipped,
            flip_rel_torque: self.last_rel_dodge_torque.to_native(),
            jump_time: self.jump_time,
            flip_time: self.flip_time,
            is_flipping: base.is_flipping,
            is_jumping: self.is_jumping,
            air_time: base.air_time,
            air_time_since_jump: self.air_time_since_jump,
            boost: self.boost,
            time_spent_boosting: self.time_spent_boosting,
            is_supersonic: self.is_supersonic,
            supersonic_time: self.supersonic_time,
            handbrake_val: self.handbrake_val,
            is_auto_flipping: self.is_auto_flipping,
            auto_flip_timer: self.auto_flip_timer,
            auto_flip_torque_scale: self.auto_flip_torque_scale,
            world_contact: native::WorldContact {
                has_contact: self.has_contact,
                contact_normal: self.contact_normal.to_native(),
            },
            car_contact: native::CarContact {
                other_car_id: self.other_car_id,
                cooldown_timer: self.cooldown_timer,
            },
            is_demoed: self.is_demoed,
            demo_respawn_timer: self.demo_respawn_timer,
            ball_hit_info: self.ball_hit_info.to_native(),
            last_controls: self.last_controls.to_native(),
        }
    }

    /// The id of the car this one is in contact with, where there is one.
    /// The engine issues ids from one upwards and writes zero for no
    /// contact.
    pub open spec fn contacting_car_id_spec(self) -> Option<u32> {
        if self.other_car_id == 0 {
            None
        } else {
            Some(self.other_car_id)
        }
    }

    /// The id of the car this one is in contact with, where there is one.
    pub fn contacting_car_id(&self) -> (r: Option<u32>)
        ensures
            r == self.contacting_car_id_spec(),
    {
        if self.other_car_id == 0 {
            None
        } else {
            Some(self.other_car_id)
        }
    }
}

impl Default for Car {
    /// A car at the origin, aligned with the world, at rest.
    fn default() -> (r: Car)
        ensures
            r == Car::default_spec(),
    {
        Car {
            pos: Vec3::zero(),
            rot_mat: RotMat::identity(),
            vel: Vec3::zero(),
            ang_vel: Vec3::zero(),
            is_on_ground: false,
            has_jumped: false,
            has_double_jumped: false,
            has_flipped: false,
            last_rel_dodge_torque: Vec3::zero(),
            jump_time: Scalar::zero(),
            flip_time: Scalar::zero(),
            is_jumping: false,
            air_time_since_jump: Scalar::zero(),
            boost: Scalar::zero(),
            time_spent_boosting: Scalar::zero(),
            is_supersonic: false,
            supersonic_time: Scalar::zero(),
            handbrake_val: Scalar::zero(),
            is_auto_flipping: false,
            auto_flip_timer: Scalar::zero(),
            auto_flip_torque_scale: Scalar::zero(),
            has_contact: false,
            contact_normal: Vec3::zero(),
            other_car_id: 0,
            cooldown_timer: Scalar::zero(),
            is_demoed: false,
            demo_respawn_timer: Scalar::zero(),
            ball_hit_info: BallHitInfo::default(),
            last_controls: CarControls::default(),
        }
    }
}

} // verus!
