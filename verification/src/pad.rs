//! Boost pads: where they lie, and whether they can be picked up.

use vstd::prelude::*;
use crate::ball::{unwrap_vec3, vec3_or_zero};
use crate::math::Vec3;
use crate::native;
use crate::scalar::Scalar;

verus! {

/// The fixed part of a boost pad, settled when the pitch is built.
#[derive(Clone, Copy, Debug, PartialEq, Eq, Structural)]
pub struct BoostPadStatic {
    pub pos: Vec3,
    pub is_big: bool,
}

impl BoostPadStatic {
    pub open spec fn from_native_spec(config: native::BoostPadConfig) -> BoostPadStatic {
        BoostPadStatic { pos: Vec3::from_native_spec(config.position), is_big: config.is_big }
    }

    pub open spec fn to_native_spec(self) -> native::BoostPadConfig {
        native::BoostPadConfig { position: self.pos.to_native_spec(), is_big: self.is_big }
    }

    /// The host's copy of a pad's fixed part.
    pub fn from_native(config: &native::BoostPadConfig) -> (r: BoostPadStatic)
        ensures
            r == BoostPadStatic::from_native_spec(*config),
    {
        BoostPadStatic { pos: Vec3::from_native(config.position), is_big: config.is_big }
    }

    /// The engine's copy of a pad's fixed part.
    pub fn to_native(&self) -> (r: native::BoostPadConfig)
        ensures
            r == self.to_native_spec(),
    {
        native::BoostPadConfig { position: self.pos.to_native(), is_big: self.is_big }
    }
}

/// The changing part of a boost pad: whether it is active, how long until
/// it is again, and which cars it is locked for. A car id of zero means no
/// car.
#[derive(Clone, Copy, Debug, PartialEq, Eq, Structural)]
pub struct BoostPadState {
    pub is_active: bool,
    pub cooldown: Scalar,
    pub cur_locked_car_id: u32,
    pub prev_locked_car_id: u32,
}

/// The flag given, or `true` where none is.
pub open spec fn active_or_true(is_active: Option<bool>) -> bool {
    match is_active {
        Some(flag) => flag,
        None => true,
    }
}

impl BoostPadState {
    /// Inactive, no cooldown, locked for no car.
    pub open spec fn default_spec() -> BoostPadState {
        BoostPadState {
            is_active: false,
            cooldown: Scalar::zero_spec(),
            cur_locked_car_id: 0,
            prev_locked_car_id: 0,
        }
    }

    /// Builds a pad state from a host's arguments. A pad is active unless
    /// the host says otherwise; the other fields are as given.
    pub fn new(
        is_active: Option<bool>,
        cooldown: Scalar,
        cur_locked_car_id: u32,
        prev_locked_car_id: u32,
    ) -> (r: BoostPadState)
        ensures
            r == (BoostPadState {
                is_active: active_or_true(is_active),
                cooldown,
                cur_locked_car_id,
                prev_locked_car_id,
            }),
    {
        BoostPadState {
            is_active: match is_active {
                Some(flag) => flag,
                None => true,
            },
            cooldown,
            cur_locked_car_id,
            prev_locked_car_id,
        }
    }

    pub open spec fn from_native_spec(state: native::BoostPadState) -> BoostPadState {
        BoostPadState {
            is_active: state.is_active,
            cooldown: state.cooldown,
            cur_locked_car_id: state.cur_locked_car_id,
            prev_locked_car_id: state.prev_locked_car_id,
        }
    }

    pub open spec fn to_native_spec(self) -> native::BoostPadState {
        native::BoostPadState {
            is_active: self.is_active,
            cooldown: self.cooldown,
            cur_locked_car_id: self.cur_locked_car_id,
            prev_locked_car_id: self.prev_locked_car_id,
        }
    }

    /// The host's copy of an engine pad state.
    pub fn from_native(state: &native::BoostPadState) -> (r: BoostPadState)
        ensures
            r == BoostPadState::from_native_spec(*state),
    {
        BoostPadState {
            is_active: state.is_active,
            cooldown: state.cooldown,
            cur_locked_car_id: state.cur_locked_car_id,
            prev_locked_car_id: state.prev_locked_car_id,
        }
    }

    /// The engine's copy of this pad state.
    pub fn to_native(&self) -> (r: native::BoostPadState)
        ensures
            r == self.to_native_spec(),
    {
        native::BoostPadState {
            is_active: self.is_active,
            cooldown: self.cooldown,
            cur_locked_car_id: self.cur_locked_car_id,
            prev_locked_car_id: self.prev_locked_car_id,
        }
    }
}

impl Default for BoostPadState {
    /// Inactive, no cooldown, locked for no car.
    fn default() -> (r: BoostPadState)
        ensures
            r == BoostPadState::default_spec(),
    {
        BoostPadState {
            is_active: false,
            cooldown: Scalar::zero(),
            cur_locked_car_id: 0,
            prev_locked_car_id: 0,
        }
    }
}

/// A boost pad in a snapshot: fixed and changing part together.
#[derive(Clone, Copy, Debug, PartialEq, Eq, Structural)]
pub struct BoostPad {
    pub is_big: bool,
    pub position: Vec3,
    pub state: BoostPadState,
}

/// The pad state given, or the default one where none is.
pub open spec fn pad_state_or_default(state: Option<BoostPadState>) -> BoostPadState {
    match state {
        Some(state) => state,
        None => BoostPadState::default_spec(),
    }
}

impl BoostPad {
    /// Builds a pad from a host's arguments; a position left out is the
    /// origin and a state left out is the default one.
    pub fn new(is_big: bool, position: Option<Vec3>, state: Option<BoostPadState>) -> (r: BoostPad)
        ensures
            r == (BoostPad {
                is_big,
                position: vec3_or_zero(position),
                state: pad_state_or_default(state),
            }),
    {
        BoostPad {
            is_big,
            position: unwrap_vec3(position),
            state: match state {
                Some(state) => state,
                None => BoostPadState::default(),
            },
        }
    }

    pub open spec fn from_native_spec(pad: native::BoostPad) -> BoostPad {
        BoostPad {
            is_big: pad.config.is_big,
            position: Vec3::from_native_spec(pad.config.position),
            state: BoostPadState::from_native_spec(pad.state),
        }
    }

    pub open spec fn to_native_spec(self) -> native::BoostPad {
        native::BoostPad {
            config: native::BoostPadConfig {
                position: self.position.to_native_spec(),
                is_big: self.is_big,
            },
            state: self.state.to_native_spec(),
        }
    }

    /// The host's copy of an engine pad.
    pub fn from_native(pad: &native::BoostPad) -> (r: BoostPad)
        ensures
            r == BoostPad::from_native_spec(*pad),
    {
        BoostPad {
            is_big: pad.config.is_big,
            position: Vec3::from_native(pad.config.position),
            state: BoostPadState::from_native(&pad.state),
        }
    }

    /// The engine's copy of this pad.
    pub fn to_native(&self) -> (r: native::BoostPad)
        ensures
            r == self.to_native_spec(),
    {
        native::BoostPad {
            config: native::BoostPadConfig {
                position: self.position.to_native(),
                is_big: self.is_big,
            },
            state: self.state.to_native(),
        }
    }
}

} // verus!
