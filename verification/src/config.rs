//! A car's geometry and a driver's input.

use vstd::prelude::*;
use crate::ball::{unwrap_vec3, vec3_or_zero};
use crate::math::Vec3;
use crate::native;
use crate::scalar::Scalar;

verus! {

/// Geometry of one axle.
#[derive(Clone, Copy, Debug, PartialEq, Eq, Structural)]
pub struct WheelPairConfig {
    pub wheel_radius: Scalar,
    pub suspension_rest_length: Scalar,
    pub connection_point_offset: Vec3,
}

impl WheelPairConfig {
    /// Every number zero.
    pub open spec fn default_spec() -> WheelPairConfig {
        WheelPairConfig {
            wheel_radius: Scalar::zero_spec(),
            suspension_rest_length: Scalar::zero_spec(),
            connection_point_offset: Vec3::zero_spec(),
        }
    }

    /// Builds an axle from a host's arguments; an offset left out is the
    /// origin.
    pub fn new(
        wheel_radius: Scalar,
        suspension_rest_length: Scalar,
        connection_point_offset: Option<Vec3>,
    ) -> (r: WheelPairConfig)
        ensures
            r == (WheelPairConfig {
                wheel_radius,
                suspension_rest_length,
                connection_point_offset: vec3_or_zero(connection_point_offset),
            }),
    {
        WheelPairConfig {
            wheel_radius,
            suspension_rest_length,
            connection_point_offset: unwrap_vec3(connection_point_offset),
        }
    }

    pub open spec fn from_native_spec(config: native::WheelPairConfig) -> WheelPairConfig {
        WheelPairConfig {
            wheel_radius: config.wheel_radius,
            suspension_rest_length: config.suspension_rest_length,
            connection_point_offset: Vec3::from_native_spec(config.connection_point_offset),
        }
    }

    pub open spec fn to_native_spec(self) -> native::WheelPairConfig {
        native::WheelPairConfig {
            wheel_radius: self.wheel_radius,
            suspension_rest_length: self.suspension_rest_length,
            connection_point_offset: self.connection_point_offset.to_native_spec(),
        }
    }

    /// The host's copy of an engine axle.
    pub fn from_native(config: &native::WheelPairConfig) -> (r: WheelPairConfig)
        ensures
            r == WheelPairConfig::from_native_spec(*config),
    {
        WheelPairConfig {
            wheel_radius: config.wheel_radius,
            suspension_rest_length: config.suspension_rest_length,
            connection_point_offset: Vec3::from_native(config.connection_point_offset),
        }
    }

    /// The engine's copy of this axle.
    pub fn to_native(&self) -> (r: native::WheelPairConfig)
        ensures
            r == self.to_native_spec(),
    {
        native::WheelPairConfig {
            wheel_radius: self.wheel_radius,
            suspension_rest_length: self.suspension_rest_length,
            connection_point_offset: self.connection_point_offset.to_native(),
        }
    }
}

impl Default for WheelPairConfig {
    /// Every number zero.
    fn default() -> (r: WheelPairConfig)
        ensures
            r == WheelPairConfig::default_spec(),
    {
        WheelPairConfig {
            wheel_radius: Scalar::zero(),
            suspension_rest_length: Scalar::zero(),
            connection_point_offset: Vec3::zero(),
        }
    }
}

/// Body and suspension geometry of a car.
#[derive(Clone, Copy, Debug, PartialEq, Eq, Structural)]
pub struct CarConfig {
    pub hitbox_size: Vec3,
    pub hitbox_pos_offset: Vec3,
    pub front_wheels: WheelPairConfig,
    pub back_wheels: WheelPairConfig,
    pub dodge_deadzone: Scalar,
}

/// The axle given, or the all-zero axle where none is.
pub open spec fn wheels_or_default(wheels: Option<WheelPairConfig>) -> WheelPairConfig {
    match wheels {
        Some(wheels) => wheels,
        None => WheelPairConfig::default_spec(),
    }
}

/// The deadzone given, or one half where none is.
pub open spec fn deadzone_or_half(deadzone: Option<Scalar>) -> Scalar {
    match deadzone {
        Some(deadzone) => deadzone,
        None => Scalar::half_spec(),
    }
}

fn unwrap_wheels(wheels: Option<WheelPairConfig>) -> (r: WheelPairConfig)
    ensures
        r == wheels_or_default(wheels),
{
    match wheels {
        Some(wheels) => wheels,
        None => WheelPairConfig::default(),
    }
}

impl CarConfig {
    /// Every number zero, the dodge deadzone included.
    pub open spec fn default_spec() -> CarConfig {
        CarConfig {
            hitbox_size: Vec3::zero_spec(),
            hitbox_pos_offset: Vec3::zero_spec(),
            front_wheels: WheelPairConfig::default_spec(),
            back_wheels: WheelPairConfig::default_spec(),
            dodge_deadzone: Scalar::zero_spec(),
        }
    }

    /// Builds a custom geometry from a host's arguments. A vector left out
    /// is the origin, an axle left out is all zero, and a dodge deadzone
    /// left out is one half.
    pub fn new(
        hitbox_size: Option<Vec3>,
        hitbox_pos_offset: Option<Vec3>,
        front_wheels: Option<WheelPairConfig>,
        back_wheels: Option<WheelPairConfig>,
        dodge_deadzone: Option<Scalar>,
    ) -> (r: CarConfig)
        ensures
            r == (CarConfig {
                hitbox_size: vec3_or_zero(hitbox_size),
                hitbox_pos_offset: vec3_or_zero(hitbox_pos_offset),
                front_wheels: wheels_or_default(front_wheels),
                back_wheels: wheels_or_default(back_wheels),
                dodge_deadzone: deadzone_or_half(dodge_deadzone),
            }),
    {
        CarConfig {
            hitbox_size: unwrap_vec3(hitbox_size),
            hitbox_pos_offset: unwrap_vec3(hitbox_pos_offset),
            front_wheels: unwrap_wheels(front_wheels),
            back_wheels: unwrap_wheels(back_wheels),
            dodge_deadzone: match dodge_deadzone {
                Some(deadzone) => deadzone,
                None => Scalar::half(),
            },
        }
    }

    pub open spec fn from_native_spec(config: native::CarConfig) -> CarConfig {
        CarConfig {
            hitbox_size: Vec3::from_native_spec(config.hitbox_size),
            hitbox_pos_offset: Vec3::from_native_spec(config.hitbox_pos_offset),
            front_wheels: WheelPairConfig::from_native_spec(config.front_wheels),
            back_wheels: WheelPairConfig::from_native_spec(config.back_wheels),
            dodge_deadzone: config.dodge_deadzone,
        }
    }

    pub open spec fn to_native_spec(self) -> native::CarConfig {
        native::CarConfig {
            hitbox_size: self.hitbox_size.to_native_spec(),
            hitbox_pos_offset: self.hitbox_pos_offset.to_native_spec(),
            front_wheels: self.front_wheels.to_native_spec(),
            back_wheels: self.back_wheels.to_native_spec(),
            dodge_deadzone: self.dodge_deadzone,
        }
    }

    /// The host's copy of an engine geometry, a named preset or any other.
    pub fn from_native(config: &native::CarConfig) -> (r: CarConfig)
        ensures
            r == CarConfig::from_native_spec(*config),
    {
        CarConfig {
            hitbox_size: Vec3::from_native(config.hitbox_size),
            hitbox_pos_offset: Vec3::from_native(config.hitbox_pos_offset),
            front_wheels: WheelPairConfig::from_native(&config.front_wheels),
            back_wheels: WheelPairConfig::from_native(&config.back_wheels),
            dodge_deadzone: config.dodge_deadzone,
        }
    }

    /// The engine's copy of this geometry.
    pub fn to_native(&self) -> (r: native::CarConfig)
        ensures
            r == self.to_native_spec(),
    {
        native::CarConfig {
            hitbox_size: self.hitbox_size.to_native(),
            hitbox_pos_offset: self.hitbox_pos_offset.to_native(),
            front_wheels: self.front_wheels.to_native(),
            back_wheels: self.back_wheels.to_native(),
            dodge_deadzone: self.dodge_deadzone,
        }
    }
}

impl Default for CarConfig {
    /// Every number zero.
    fn default() -> (r: CarConfig)
        ensures
            r == CarConfig::default_spec(),
    {
        CarConfig {
            hitbox_size: Vec3::zero(),
            hitbox_pos_offset: Vec3::zero(),
            front_wheels: WheelPairConfig::default(),
            back_wheels: WheelPairConfig::default(),
            dodge_deadzone: Scalar::zero(),
        }
    }
}

/// One tick's worth of driver input. Any number is accepted; the engine
/// clamps what it reads.
#[derive(Clone, Copy, Debug, PartialEq, Eq, Structural)]
pub struct CarControls {
    pub throttle: Scalar,
    pub steer: Scalar,
    pub pitch: Scalar,
    pub yaw: Scalar,
    pub roll: Scalar,
    pub jump: bool,
    pub boost: bool,
    pub handbrake: bool,
}

impl CarControls {
    /// Hands off: every axis zero, no button held.
    pub open spec fn default_spec() -> CarControls {
        CarControls {
            throttle: Scalar::zero_spec(),
            steer: Scalar::zero_spec(),
            pitch: Scalar::zero_spec(),
            yaw: Scalar::zero_spec(),
            roll: Scalar::zero_spec(),
            jump: false,
            boost: false,
            handbrake: false,
        }
    }

    /// The input with the given axes and buttons.
    pub fn new(
        throttle: Scalar,
        steer: Scalar,
        pitch: Scalar,
        yaw: Scalar,
        roll: Scalar,
        jump: bool,
        boost: bool,
        handbrake: bool,
    ) -> (r: CarControls)
        ensures
            r == (CarControls { throttle, steer, pitch, yaw, roll, jump, boost, handbrake }),
    {
        CarControls { throttle, steer, pitch, yaw, roll, jump, boost, handbrake }
    }

    pub open spec fn from_native_spec(controls: native::CarControls) -> CarControls {
        CarControls {
            throttle: controls.throttle,
            steer: controls.steer,
            pitch: controls.pitch,
            yaw: controls.yaw,
            roll: controls.roll,
            jump: controls.jump,
            boost: controls.boost,
            handbrake: controls.handbrake,
        }
    }

    pub open spec fn to_native_spec(self) -> native::CarControls {
        native::CarControls {
            throttle: self.throttle,
            steer: self.steer,
            pitch: self.pitch,
            yaw: self.yaw,
            roll: self.roll,
            jump: self.jump,
            boost: self.boost,
            handbrake: self.handbrake,
        }
    }

    /// The host's copy of an engine input.
    pub fn from_native(controls: &native::CarControls) -> (r: CarControls)
        ensures
            r == CarControls::from_native_spec(*controls),
    {
        CarControls {
            throttle: controls.throttle,
            steer: controls.steer,
            pitch: controls.pitch,
            yaw: controls.yaw,
            roll: controls.roll,
            jump: controls.jump,
            boost: controls.boost,
            handbrake: controls.handbrake,
        }
    }

    /// The engine's copy of this input.
    pub fn to_native(&self) -> (r: native::CarControls)
        ensures
            r == self.to_native_spec(),
    {
        native::CarControls {
            throttle: self.throttle,
            steer: self.steer,
            pitch: self.pitch,
            yaw: self.yaw,
            roll: self.roll,
            jump: self.jump,
            boost: self.boost,
            handbrake: self.handbrake,
        }
    }
}

impl Default for CarControls {
    /// Hands off.
    fn default() -> (r: CarControls)
        ensures
            r == CarControls::default_spec(),
    {
        CarControls {
            throttle: Scalar::zero(),
            steer: Scalar::zero(),
            pitch: Scalar::zero(),
            yaw: Scalar::zero(),
            roll: Scalar::zero(),
            jump: false,
            boost: false,
            handbrake: false,
        }
    }
}

} // verus!
