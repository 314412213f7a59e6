//! What holds of the conversions, whatever the values.
//!
//! A record that goes to the engine's layout and back is the record that
//! set out, and so is one that comes from the engine's layout and goes
//! back. Where the engine keeps fields that a host cannot see, the way back
//! lays the host's record over the engine's own, so nothing is lost in
//! either direction.

use vstd::prelude::*;
use crate::arena::{arenas_agree, pad_states_agree};
use crate::ball::{Ball, BallHitInfo};
use crate::car::Car;
use crate::config::{CarConfig, CarControls, WheelPairConfig};
use crate::kinds::{GameMode, Team};
use crate::math::{RotMat, Vec3};
use crate::native;
use crate::pad::{BoostPad, BoostPadState, BoostPadStatic};
use crate::scalar::Scalar;
use crate::state::{
    car_position, is_car_position, knows_car, lemma_car_position_unique, CarInfo, GameStateView,
};

verus! {

/// No two of the cars listed share an id. The engine issues each id once,
/// so this holds of whatever it reports.
pub open spec fn ids_distinct(cars: Seq<native::CarInfo>) -> bool {
    forall|i: int, j: int|
        0 <= i < j < cars.len() ==> (#[trigger] cars[i]).id != (#[trigger] cars[j]).id
}

/// A vector survives the way to the engine and back, and the way from the
/// engine and back.
pub proof fn lemma_vec3_round_trip(host: Vec3, engine: native::Vec3)
    ensures
        Vec3::from_native_spec(host.to_native_spec()) == host,
        Vec3::from_native_spec(engine).to_native_spec() == engine,
{
}

/// An orientation survives the way to the engine and back, and the way
/// from the engine and back.
pub proof fn lemma_rot_mat_round_trip(host: RotMat, engine: native::RotMat)
    ensures
        RotMat::from_native_spec(host.to_native_spec()) == host,
        RotMat::from_native_spec(engine).to_native_spec() == engine,
{
    lemma_vec3_round_trip(host.forward, engine.forward);
    lemma_vec3_round_trip(host.right, engine.right);
    lemma_vec3_round_trip(host.up, engine.up);
}

/// A team survives the way to the engine and back, and the way from the
/// engine and back.
pub proof fn lemma_team_round_trip(host: Team, engine: native::Team)
    ensures
        Team::from_native_spec(host.to_native_spec()) == host,
        Team::from_native_spec(engine).to_native_spec() == engine,
{
}

/// A game mode survives the way to the engine and back. An engine mode
/// survives the way to the host and back where the host has a name for it.
pub proof fn lemma_game_mode_round_trip(host: GameMode, engine: native::GameMode)
    ensures
        GameMode::is_mapped(host.to_native_spec()),
        GameMode::from_native_spec(host.to_native_spec()) == host,
        GameMode::is_mapped(engine) ==> GameMode::from_native_spec(engine).to_native_spec()
            == engine,
{
}

/// A hit record survives the way to the engine and back, and the way from
/// the engine and back.
pub proof fn lemma_ball_hit_info_round_trip(host: BallHitInfo, engine: native::BallHitInfo)
    ensures
        BallHitInfo::from_native_spec(host.to_native_spec()) == host,
        BallHitInfo::from_native_spec(engine).to_native_spec() == engine,
{
    lemma_vec3_round_trip(host.relative_pos_on_ball, engine.relative_pos_on_ball);
    lemma_vec3_round_trip(host.ball_pos, engine.ball_pos);
    lemma_vec3_round_trip(host.extra_hit_vel, engine.extra_hit_vel);
}

/// A ball laid over any engine ball reads back as itself, and an engine
/// ball read and laid over itself is unchanged.
pub proof fn lemma_ball_round_trip(host: Ball, base: native::BallState, engine: native::BallState)
    ensures
        Ball::from_native_spec(host.to_native_spec(base)) == host,
        Ball::from_native_spec(engine).to_native_spec(engine) == engine,
{
    lemma_vec3_round_trip(host.pos, engine.pos);
    lemma_vec3_round_trip(host.vel, engine.vel);
    lemma_vec3_round_trip(host.ang_vel, engine.ang_vel);
}

/// An axle survives the way to the engine and back, and the way from the
/// engine and back.
pub proof fn lemma_wheel_pair_config_round_trip(
    host: WheelPairConfig,
    engine: native::WheelPairConfig,
)
    ensures
        WheelPairConfig::from_native_spec(host.to_native_spec()) == host,
        WheelPairConfig::from_native_spec(engine).to_native_spec() == engine,
{
    lemma_vec3_round_trip(host.connection_point_offset, engine.connection_point_offset);
}

/// A geometry survives the way to the engine and back, and the way from
/// the engine and back.
pub proof fn lemma_car_config_round_trip(host: CarConfig, engine: native::CarConfig)
    ensures
        CarConfig::from_native_spec(host.to_native_spec()) == host,
        CarConfig::from_native_spec(engine).to_native_spec() == engine,
{
    lemma_vec3_round_trip(host.hitbox_size, engine.hitbox_size);
    lemma_vec3_round_trip(host.hitbox_pos_offset, engine.hitbox_pos_offset);
    lemma_wheel_pair_config_round_trip(host.front_wheels, engine.front_wheels);
    lemma_wheel_pair_config_round_trip(host.back_wheels, engine.back_wheels);
}

/// An input survives the way to the engine and back, and the way from the
/// engine and back.
pub proof fn lemma_car_controls_round_trip(host: CarControls, engine: native::CarControls)
    ensures
        CarControls::from_native_spec(host.to_native_spec()) == host,
        CarControls::from_native_spec(engine).to_native_spec() == engine,
{
}

/// A car laid over any engine car reads back as itself, and an engine car
/// read and laid over itself is unchanged.
pub proof fn lemma_car_round_trip(host: Car, base: native::CarState, engine: native::CarState)
    ensures
        Car::from_native_spec(host.to_native_spec(base)) == host,
        Car::from_native_spec(engine).to_native_spec(engine) == engine,
{
    lemma_vec3_round_trip(host.pos, engine.pos);
    lemma_rot_mat_round_trip(host.rot_mat, engine.rot_mat);
    lemma_vec3_round_trip(host.vel, engine.vel);
    lemma_vec3_round_trip(host.ang_vel, engine.ang_vel);
    lemma_vec3_round_trip(host.last_rel_dodge_torque, engine.flip_rel_torque);
    lemma_vec3_round_trip(host.contact_normal, engine.world_contact.contact_normal);
    lemma_ball_hit_info_round_trip(host.ball_hit_info, engine.ball_hit_info);
    lemma_car_controls_round_trip(host.last_controls, engine.last_controls);
}

/// The fixed part of a pad survives the way to the engine and back, and
/// the way from the engine and back.
pub proof fn lemma_boost_pad_static_round_trip(host: BoostPadStatic, engine: native::BoostPadConfig)
    ensures
        BoostPadStatic::from_native_spec(host.to_native_spec()) == host,
        BoostPadStatic::from_native_spec(engine).to_native_spec() == engine,
{
    lemma_vec3_round_trip(host.pos, engine.position);
}

/// A pad state survives the way to the engine and back, and the way from
/// the engine and back.
pub proof fn lemma_boost_pad_state_round_trip(host: BoostPadState, engine: native::BoostPadState)
    ensures
        BoostPadState::from_native_spec(host.to_native_spec()) == host,
        BoostPadState::from_native_spec(engine).to_native_spec() == engine,
{
}

/// A pad survives the way to the engine and back, and the way from the
/// engine and back.
pub proof fn lemma_boost_pad_round_trip(host: BoostPad, engine: native::BoostPad)
    ensures
        BoostPad::from_native_spec(host.to_native_spec()) == host,
        BoostPad::from_native_spec(engine).to_native_spec() == engine,
{
    lemma_vec3_round_trip(host.position, engine.config.position);
    lemma_boost_pad_state_round_trip(host.state, engine.state);
}

/// A snapshot entry laid over any engine car reads back as itself, and an
/// engine entry read and laid over its own state is unchanged.
pub proof fn lemma_car_info_round_trip(
    host: CarInfo,
    base: native::CarState,
    engine: native::CarInfo,
)
    ensures
        CarInfo::from_native_spec(host.to_native_spec(base)) == host,
        CarInfo::from_native_spec(engine).to_native_spec(engine.state) == engine,
{
    lemma_team_round_trip(host.team, engine.team);
    lemma_car_round_trip(host.state, base, engine.state);
    lemma_car_config_round_trip(host.config, engine.config);
}

/// Where no two cars share an id, each car stands first at its own place.
pub proof fn lemma_position_of_listed_car(cars: Seq<native::CarInfo>, i: int)
    requires
        ids_distinct(cars),
        0 <= i < cars.len(),
    ensures
        knows_car(cars, cars[i].id),
        car_position(cars, cars[i].id) == i,
{
    assert(is_car_position(cars, cars[i].id, i));
    lemma_car_position_unique(cars, cars[i].id, i);
}

/// A snapshot that the engine can take reads back as itself once it has
/// been laid over what the engine holds.
pub proof fn lemma_game_state_round_trip(host: GameStateView, base: native::GameStateView)
    requires
        host.fits(base),
    ensures
        GameStateView::from_native_spec(host.to_native_spec(base)) == host,
{
    let there = host.to_native_spec(base);
    let back = GameStateView::from_native_spec(there);
    lemma_ball_round_trip(host.ball, base.ball, base.ball);
    lemma_rot_mat_round_trip(host.ball_rot, base.ball.rot_mat);
    assert forall|i: int| 0 <= i < host.cars.len() implies back.cars[i] == host.cars[i] by {
        lemma_car_info_round_trip(
            host.cars[i],
            base.cars[car_position(base.cars, host.cars[i].id)].state,
            there.cars[i],
        );
    }
    assert forall|i: int| 0 <= i < host.pads.len() implies back.pads[i] == host.pads[i] by {
        lemma_boost_pad_round_trip(host.pads[i], there.pads[i]);
    }
    assert(back.cars =~= host.cars);
    assert(back.pads =~= host.pads);
}

/// Restoring a snapshot that was just taken changes nothing.
///
/// Let the engine hold `engine`, in which no two cars share an id. The
/// snapshot taken of it fits it, the state handed back to restore that
/// snapshot is `engine` itself, and a snapshot taken next is the same
/// again.
pub proof fn lemma_restore_of_snapshot(engine: native::GameStateView)
    requires
        ids_distinct(engine.cars),
    ensures
        GameStateView::from_native_spec(engine).fits(engine),
        GameStateView::from_native_spec(engine).to_native_spec(engine) == engine,
        GameStateView::from_native_spec(
            GameStateView::from_native_spec(engine).to_native_spec(engine),
        ) == GameStateView::from_native_spec(engine),
{
    let snapshot = GameStateView::from_native_spec(engine);
    let back = snapshot.to_native_spec(engine);
    assert forall|i: int| 0 <= i < snapshot.cars.len() implies knows_car(
        engine.cars,
        (#[trigger] snapshot.cars[i]).id,
    ) by {
        lemma_position_of_listed_car(engine.cars, i);
    }
    lemma_ball_round_trip(snapshot.ball, engine.ball, engine.ball);
    lemma_rot_mat_round_trip(snapshot.ball_rot, engine.ball.rot_mat);
    assert(back.ball == engine.ball);
    assert forall|i: int| 0 <= i < engine.cars.len() implies back.cars[i] == engine.cars[i] by {
        lemma_position_of_listed_car(engine.cars, i);
        lemma_car_info_round_trip(snapshot.cars[i], engine.cars[i].state, engine.cars[i]);
    }
    assert forall|i: int| 0 <= i < engine.pads.len() implies back.pads[i] == engine.pads[i] by {
        lemma_boost_pad_round_trip(snapshot.pads[i], engine.pads[i]);
    }
    assert(back.cars =~= engine.cars);
    assert(back.pads =~= engine.pads);
}

/// Numeric equality is symmetric, and holds of a number and itself unless
/// the number is a NaN.
pub proof fn lemma_num_eq(a: Scalar, b: Scalar)
    ensures
        a.num_eq_spec(b) == b.num_eq_spec(a),
        a.num_eq_spec(a) == !a.is_nan_spec(),
{
}

/// Equality of simulations is symmetric.
pub proof fn lemma_arenas_agree_symmetric(a: native::GameStateView, b: native::GameStateView)
    ensures
        arenas_agree(a, b) == arenas_agree(b, a),
{
    if arenas_agree(a, b) {
        assert forall|i: int| 0 <= i < b.cars.len() implies (#[trigger] b.cars[i]).id
            == a.cars[i].id by {
            assert(a.cars[i].id == b.cars[i].id);
        }
        assert forall|i: int| 0 <= i < b.pads.len() implies pad_states_agree(
            (#[trigger] b.pads[i]).state,
            a.pads[i].state,
        ) by {
            assert(pad_states_agree(a.pads[i].state, b.pads[i].state));
        }
    }
    if arenas_agree(b, a) {
        assert forall|i: int| 0 <= i < a.cars.len() implies (#[trigger] a.cars[i]).id
            == b.cars[i].id by {
            assert(b.cars[i].id == a.cars[i].id);
        }
        assert forall|i: int| 0 <= i < a.pads.len() implies pad_states_agree(
            (#[trigger] a.pads[i]).state,
            b.pads[i].state,
        ) by {
            assert(pad_states_agree(b.pads[i].state, a.pads[i].state));
        }
    }
}

} // verus!
