use rocketsim_py::ball::{Ball, BallHitInfo};
use rocketsim_py::car::Car;
use rocketsim_py::config::{CarConfig, CarControls, WheelPairConfig};
use rocketsim_py::kinds::{repr_bool, GameMode, Team};
use rocketsim_py::math::{RotMat, Vec3};
use rocketsim_py::pad::{BoostPad, BoostPadState};
use rocketsim_py::scalar::{Scalar, HALF_BITS, INFINITY_BITS, ONE_BITS, ZERO_BITS};
use rocketsim_py::state::{CarInfo, GameState, DEFAULT_TICK_RATE_BITS};

fn num(value: f32) -> Scalar {
    Scalar::from_bits(value.to_bits())
}

fn vec3(x: f32, y: f32, z: f32) -> Vec3 {
    Vec3::new(num(x), num(y), num(z))
}

#[test]
fn scalar_constants_are_the_patterns_of_their_numbers() {
    assert_eq!(ZERO_BITS, 0.0f32.to_bits());
    assert_eq!(ONE_BITS, 1.0f32.to_bits());
    assert_eq!(HALF_BITS, 0.5f32.to_bits());
    assert_eq!(INFINITY_BITS, f32::INFINITY.to_bits());
    assert_eq!(DEFAULT_TICK_RATE_BITS, 120.0f32.to_bits());
    assert_eq!(Scalar::zero().to_bits(), 0.0f32.to_bits());
    assert_eq!(Scalar::one().to_bits(), 1.0f32.to_bits());
    assert_eq!(Scalar::half().to_bits(), 0.5f32.to_bits());
    assert_eq!(Scalar::default(), Scalar::zero());
}

#[test]
fn scalar_keeps_every_pattern() {
    let patterns: [u32; 8] = [
        0,
        0x8000_0000,
        0x7F80_0000,
        0xFF80_0000,
        0x7FC0_0000,
        0x7F80_0001,
        0xFFFF_FFFF,
        0x3F9D_70A4,
    ];
    for bits in patterns {
        assert_eq!(Scalar::from_bits(bits).to_bits(), bits);
        assert_eq!(f32::from_bits(Scalar::from_bits(bits).to_bits()).to_bits(), bits);
    }
}

#[test]
fn scalar_is_nan_matches_the_number() {
    let samples: [f32; 10] = [
        0.0,
        -0.0,
        1.0,
        -1.5,
        f32::INFINITY,
        f32::NEG_INFINITY,
        f32::NAN,
        f32::MAX,
        f32::MIN_POSITIVE,
        1.0e-45,
    ];
    for value in samples {
        assert_eq!(num(value).is_nan(), value.is_nan());
        assert_eq!(num(value).is_zero(), value == 0.0);
    }
    assert!(Scalar::from_bits(0x7F80_0001).is_nan());
    assert!(Scalar::from_bits(0xFFC0_0000).is_nan());
    assert!(!Scalar::from_bits(0xFF80_0000).is_nan());
}

#[test]
fn scalar_num_eq_matches_the_numbers() {
    let samples: [f32; 9] = [
        0.0,
        -0.0,
        1.0,
        -1.0,
        120.0,
        f32::INFINITY,
        f32::NEG_INFINITY,
        f32::NAN,
        1.0e-45,
    ];
    for a in samples {
        for b in samples {
            assert_eq!(num(a).num_eq(num(b)), a == b, "{a} against {b}");
        }
    }
}

#[test]
fn scalar_num_eq_is_not_pattern_equality() {
    assert!(num(0.0).num_eq(num(-0.0)));
    assert_ne!(num(0.0), num(-0.0));
    assert!(!num(f32::NAN).num_eq(num(f32::NAN)));
    assert_eq!(num(f32::NAN), num(f32::NAN));
}

#[test]
fn vec3_constants() {
    assert_eq!(Vec3::zero(), vec3(0.0, 0.0, 0.0));
    assert_eq!(Vec3::unit_x(), vec3(1.0, 0.0, 0.0));
    assert_eq!(Vec3::unit_y(), vec3(0.0, 1.0, 0.0));
    assert_eq!(Vec3::unit_z(), vec3(0.0, 0.0, 1.0));
    assert_eq!(Vec3::default(), Vec3::zero());
}

#[test]
fn vec3_with_replaces_one_component() {
    let v = vec3(1.0, 2.0, 3.0);
    assert_eq!(v.with_x(num(9.0)), vec3(9.0, 2.0, 3.0));
    assert_eq!(v.with_y(num(9.0)), vec3(1.0, 9.0, 3.0));
    assert_eq!(v.with_z(num(9.0)), vec3(1.0, 2.0, 9.0));
    assert_eq!(v, vec3(1.0, 2.0, 3.0));
}

#[test]
fn vec3_from_args_positional_only() {
    let args = vec![Some(num(1.0)), Some(num(2.0)), Some(num(3.0))];
    assert_eq!(Vec3::from_args(&args, None, None, None), vec3(1.0, 2.0, 3.0));
}

#[test]
fn vec3_from_args_missing_components_are_zero() {
    assert_eq!(Vec3::from_args(&vec![], None, None, None), vec3(0.0, 0.0, 0.0));
    let args = vec![Some(num(4.0))];
    assert_eq!(Vec3::from_args(&args, None, None, None), vec3(4.0, 0.0, 0.0));
}

#[test]
fn vec3_from_args_keyword_overrides_positional() {
    let args = vec![Some(num(1.0)), Some(num(2.0)), Some(num(3.0))];
    let v = Vec3::from_args(&args, None, Some(num(7.0)), None);
    assert_eq!(v, vec3(1.0, 7.0, 3.0));
    let w = Vec3::from_args(&args, Some(num(-1.0)), Some(num(-2.0)), Some(num(-3.0)));
    assert_eq!(w, vec3(-1.0, -2.0, -3.0));
}

#[test]
fn vec3_from_args_keyword_only() {
    let v = Vec3::from_args(&vec![], None, None, Some(num(5.0)));
    assert_eq!(v, vec3(0.0, 0.0, 5.0));
}

#[test]
fn vec3_from_args_skips_what_is_not_a_number() {
    let args = vec![None, Some(num(2.0)), None];
    assert_eq!(Vec3::from_args(&args, None, None, None), vec3(0.0, 2.0, 0.0));
    assert_eq!(Vec3::from_args(&args, Some(num(8.0)), None, None), vec3(8.0, 2.0, 0.0));
}

#[test]
fn vec3_from_args_ignores_extra_positionals() {
    let args = vec![Some(num(1.0)), Some(num(2.0)), Some(num(3.0)), Some(num(4.0)), None];
    assert_eq!(Vec3::from_args(&args, None, None, None), vec3(1.0, 2.0, 3.0));
}

#[test]
fn rot_mat_identity_and_default() {
    let m = RotMat::identity();
    assert_eq!(m.forward, vec3(1.0, 0.0, 0.0));
    assert_eq!(m.right, vec3(0.0, 1.0, 0.0));
    assert_eq!(m.up, vec3(0.0, 0.0, 1.0));
    assert_eq!(RotMat::default(), m);
    let n = RotMat::new(vec3(0.0, 1.0, 0.0), vec3(-1.0, 0.0, 0.0), vec3(0.0, 0.0, 1.0));
    assert_eq!(n.forward, vec3(0.0, 1.0, 0.0));
    assert_eq!(n.right, vec3(-1.0, 0.0, 0.0));
    assert_eq!(n.up, vec3(0.0, 0.0, 1.0));
}

#[test]
fn team_names() {
    assert_eq!(Team::Blue.name(), "Blue");
    assert_eq!(Team::Orange.name(), "Orange");
    assert_eq!(Team::Blue.repr(), "Team.Blue");
    assert_eq!(Team::Orange.repr(), "Team.Orange");
    assert_eq!(Team::default(), Team::Blue);
    assert_eq!(GameMode::default(), GameMode::Soccar);
}

#[test]
fn repr_bool_spells_flags_as_the_host_does() {
    assert_eq!(repr_bool(true), "True");
    assert_eq!(repr_bool(false), "False");
}

#[test]
fn ball_hit_info_defaults() {
    let d = BallHitInfo::default();
    assert!(!d.is_valid);
    assert_eq!(d.relative_pos_on_ball, Vec3::zero());
    assert_eq!(d.ball_pos, Vec3::zero());
    assert_eq!(d.extra_hit_vel, Vec3::zero());
    assert_eq!(d.tick_count_when_hit, 0);
    assert_eq!(d.tick_count_when_extra_impulse_applied, 0);
    assert_eq!(BallHitInfo::new(false, None, None, None, 0, 0), d);
    let h = BallHitInfo::new(true, Some(vec3(1.0, 2.0, 3.0)), None, Some(vec3(4.0, 5.0, 6.0)), 7, 8);
    assert!(h.is_valid);
    assert_eq!(h.relative_pos_on_ball, vec3(1.0, 2.0, 3.0));
    assert_eq!(h.ball_pos, Vec3::zero());
    assert_eq!(h.extra_hit_vel, vec3(4.0, 5.0, 6.0));
    assert_eq!(h.tick_count_when_hit, 7);
    assert_eq!(h.tick_count_when_extra_impulse_applied, 8);
}

#[test]
fn ball_defaults() {
    let d = Ball::default();
    assert_eq!(d.pos, Vec3::zero());
    assert_eq!(d.vel, Vec3::zero());
    assert_eq!(d.ang_vel, Vec3::zero());
    assert_eq!(Ball::new(None, None, None), d);
    let b = Ball::new(Some(vec3(0.0, 0.0, 93.15)), None, Some(vec3(0.0, 0.0, 1.0)));
    assert_eq!(b.pos, vec3(0.0, 0.0, 93.15));
    assert_eq!(b.vel, Vec3::zero());
    assert_eq!(b.ang_vel, vec3(0.0, 0.0, 1.0));
}

#[test]
fn wheel_pair_config_defaults() {
    let d = WheelPairConfig::default();
    assert_eq!(d.wheel_radius, num(0.0));
    assert_eq!(d.suspension_rest_length, num(0.0));
    assert_eq!(d.connection_point_offset, Vec3::zero());
    let w = WheelPairConfig::new(num(12.5), num(38.755), None);
    assert_eq!(w.wheel_radius, num(12.5));
    assert_eq!(w.suspension_rest_length, num(38.755));
    assert_eq!(w.connection_point_offset, Vec3::zero());
    let o = WheelPairConfig::new(num(1.0), num(2.0), Some(vec3(51.25, 25.9, 20.755)));
    assert_eq!(o.connection_point_offset, vec3(51.25, 25.9, 20.755));
}

#[test]
fn car_config_default_deadzone_is_zero_but_a_new_one_has_one_half() {
    let d = CarConfig::default();
    assert_eq!(d.dodge_deadzone, num(0.0));
    assert_eq!(d.hitbox_size, Vec3::zero());
    assert_eq!(d.hitbox_pos_offset, Vec3::zero());
    assert_eq!(d.front_wheels, WheelPairConfig::default());
    assert_eq!(d.back_wheels, WheelPairConfig::default());
    let n = CarConfig::new(None, None, None, None, None);
    assert_eq!(n.dodge_deadzone, num(0.5));
    assert_eq!(n.hitbox_size, Vec3::zero());
    assert_eq!(n.front_wheels, WheelPairConfig::default());
    let wheels = WheelPairConfig::new(num(12.5), num(38.755), None);
    let c = CarConfig::new(
        Some(vec3(120.507, 86.6994, 38.6591)),
        Some(vec3(13.8757, 0.0, 20.755)),
        Some(wheels),
        None,
        Some(num(0.25)),
    );
    assert_eq!(c.hitbox_size, vec3(120.507, 86.6994, 38.6591));
    assert_eq!(c.hitbox_pos_offset, vec3(13.8757, 0.0, 20.755));
    assert_eq!(c.front_wheels, wheels);
    assert_eq!(c.back_wheels, WheelPairConfig::default());
    assert_eq!(c.dodge_deadzone, num(0.25));
}

#[test]
fn car_controls_new_and_default() {
    let d = CarControls::default();
    assert_eq!(
        d,
        CarControls::new(num(0.0), num(0.0), num(0.0), num(0.0), num(0.0), false, false, false)
    );
    let c = CarControls::new(num(1.0), num(-0.5), num(0.25), num(-1.0), num(0.75), true, false, true);
    assert_eq!(c.throttle, num(1.0));
    assert_eq!(c.steer, num(-0.5));
    assert_eq!(c.pitch, num(0.25));
    assert_eq!(c.yaw, num(-1.0));
    assert_eq!(c.roll, num(0.75));
    assert!(c.jump);
    assert!(!c.boost);
    assert!(c.handbrake);
}

#[test]
fn car_controls_accept_any_number() {
    let c = CarControls::new(
        num(f32::NAN),
        num(f32::INFINITY),
        num(-1.0e30),
        num(5.0),
        num(-0.0),
        false,
        true,
        false,
    );
    assert_eq!(c.throttle.to_bits(), f32::NAN.to_bits());
    assert_eq!(c.steer.to_bits(), f32::INFINITY.to_bits());
    assert_eq!(c.pitch, num(-1.0e30));
    assert_eq!(c.yaw, num(5.0));
    assert_eq!(c.roll.to_bits(), (-0.0f32).to_bits());
}

#[test]
fn car_default_is_at_rest_at_the_origin() {
    let d = Car::default();
    assert_eq!(d.pos, Vec3::zero());
    assert_eq!(d.rot_mat, RotMat::identity());
    assert_eq!(d.vel, Vec3::zero());
    assert_eq!(d.ang_vel, Vec3::zero());
    assert!(!d.is_on_ground && !d.has_jumped && !d.has_double_jumped && !d.has_flipped);
    assert_eq!(d.last_rel_dodge_torque, Vec3::zero());
    assert_eq!(d.jump_time, num(0.0));
    assert_eq!(d.flip_time, num(0.0));
    assert!(!d.is_jumping);
    assert_eq!(d.air_time_since_jump, num(0.0));
    assert_eq!(d.boost, num(0.0));
    assert_eq!(d.time_spent_boosting, num(0.0));
    assert!(!d.is_supersonic);
    assert_eq!(d.supersonic_time, num(0.0));
    assert_eq!(d.handbrake_val, num(0.0));
    assert!(!d.is_auto_flipping);
    assert_eq!(d.auto_flip_timer, num(0.0));
    assert_eq!(d.auto_flip_torque_scale, num(0.0));
    assert!(!d.has_contact);
    assert_eq!(d.contact_normal, Vec3::zero());
    assert_eq!(d.other_car_id, 0);
    assert_eq!(d.cooldown_timer, num(0.0));
    assert!(!d.is_demoed);
    assert_eq!(d.demo_respawn_timer, num(0.0));
    assert_eq!(d.ball_hit_info, BallHitInfo::default());
    assert_eq!(d.last_controls, CarControls::default());
}

#[test]
fn car_new_fills_what_is_left_out() {
    let zero = num(0.0);
    let c = Car::new(
        None, None, None, None, false, false, false, false, None, zero, zero, false, zero, zero,
        zero, false, zero, zero, false, zero, zero, false, None, 0, zero, false, zero, None, None,
    );
    assert_eq!(c, Car::default());
}

#[test]
fn car_new_keeps_what_is_given() {
    let hit = BallHitInfo::new(true, None, Some(vec3(1.0, 1.0, 1.0)), None, 3, 4);
    let controls =
        CarControls::new(num(1.0), num(0.0), num(0.0), num(0.0), num(0.0), false, true, false);
    let c = Car::new(
        Some(vec3(1.0, 2.0, 17.0)),
        Some(RotMat::new(vec3(0.0, 1.0, 0.0), vec3(-1.0, 0.0, 0.0), vec3(0.0, 0.0, 1.0))),
        Some(vec3(3.0, 4.0, 5.0)),
        Some(vec3(6.0, 7.0, 8.0)),
        true,
        true,
        false,
        true,
        Some(vec3(0.5, 0.5, 0.0)),
        num(0.1),
        num(0.2),
        true,
        num(0.3),
        num(33.3),
        num(0.4),
        true,
        num(0.5),
        num(0.6),
        true,
        num(0.7),
        num(0.8),
        true,
        Some(vec3(0.0, 0.0, 1.0)),
        9,
        num(0.9),
        true,
        num(3.0),
        Some(hit),
        Some(controls),
    );
    assert_eq!(c.pos, vec3(1.0, 2.0, 17.0));
    assert_eq!(c.rot_mat.forward, vec3(0.0, 1.0, 0.0));
    assert_eq!(c.vel, vec3(3.0, 4.0, 5.0));
    assert_eq!(c.ang_vel, vec3(6.0, 7.0, 8.0));
    assert!(c.is_on_ground && c.has_jumped && !c.has_double_jumped && c.has_flipped);
    assert_eq!(c.last_rel_dodge_torque, vec3(0.5, 0.5, 0.0));
    assert_eq!(c.jump_time, num(0.1));
    assert_eq!(c.flip_time, num(0.2));
    assert!(c.is_jumping);
    assert_eq!(c.air_time_since_jump, num(0.3));
    assert_eq!(c.boost, num(33.3));
    assert_eq!(c.time_spent_boosting, num(0.4));
    assert!(c.is_supersonic);
    assert_eq!(c.supersonic_time, num(0.5));
    assert_eq!(c.handbrake_val, num(0.6));
    assert!(c.is_auto_flipping);
    assert_eq!(c.auto_flip_timer, num(0.7));
    assert_eq!(c.auto_flip_torque_scale, num(0.8));
    assert!(c.has_contact);
    assert_eq!(c.contact_normal, vec3(0.0, 0.0, 1.0));
    assert_eq!(c.other_car_id, 9);
    assert_eq!(c.cooldown_timer, num(0.9));
    assert!(c.is_demoed);
    assert_eq!(c.demo_respawn_timer, num(3.0));
    assert_eq!(c.ball_hit_info, hit);
    assert_eq!(c.last_controls, controls);
}

#[test]
fn car_contacting_car_id_is_none_for_zero() {
    let mut c = Car::default();
    assert_eq!(c.contacting_car_id(), None);
    c.other_car_id = 3;
    assert_eq!(c.contacting_car_id(), Some(3));
    c.other_car_id = u32::MAX;
    assert_eq!(c.contacting_car_id(), Some(u32::MAX));
}

#[test]
fn boost_pad_state_is_active_unless_told_otherwise() {
    let n = BoostPadState::new(None, num(0.0), 0, 0);
    assert!(n.is_active);
    let off = BoostPadState::new(Some(false), num(4.0), 2, 1);
    assert!(!off.is_active);
    assert_eq!(off.cooldown, num(4.0));
    assert_eq!(off.cur_locked_car_id, 2);
    assert_eq!(off.prev_locked_car_id, 1);
    let d = BoostPadState::default();
    assert!(!d.is_active);
    assert_eq!(d.cooldown, num(0.0));
    assert_eq!(d.cur_locked_car_id, 0);
    assert_eq!(d.prev_locked_car_id, 0);
}

#[test]
fn boost_pad_new_fills_what_is_left_out() {
    let p = BoostPad::new(false, None, None);
    assert!(!p.is_big);
    assert_eq!(p.position, Vec3::zero());
    assert_eq!(p.state, BoostPadState::default());
    let state = BoostPadState::new(Some(true), num(1.0), 0, 0);
    let q = BoostPad::new(true, Some(vec3(0.0, -4240.0, 70.0)), Some(state));
    assert!(q.is_big);
    assert_eq!(q.position, vec3(0.0, -4240.0, 70.0));
    assert_eq!(q.state, state);
}

#[test]
fn car_info_new_fills_what_is_left_out() {
    let i = CarInfo::new(4, Team::Orange, None, None);
    assert_eq!(i.id, 4);
    assert_eq!(i.team, Team::Orange);
    assert_eq!(i.state, Car::default());
    assert_eq!(i.config, CarConfig::default());
    let mut car = Car::default();
    car.boost = num(100.0);
    let config = CarConfig::new(None, None, None, None, None);
    let j = CarInfo::new(1, Team::Blue, Some(car), Some(config));
    assert_eq!(j.state, car);
    assert_eq!(j.config, config);
}

#[test]
fn game_state_new_fills_what_is_left_out() {
    let g = GameState::new(None, None, None, None, vec![], vec![]);
    assert_eq!(g.tick_count, 0);
    assert_eq!(g.tick_rate, num(120.0));
    assert_eq!(g.ball, Ball::default());
    assert_eq!(g.ball_rot, RotMat::identity());
    assert!(g.cars.is_empty());
    assert!(g.pads.is_empty());
}

#[test]
fn game_state_new_keeps_what_is_given() {
    let ball = Ball::new(Some(vec3(0.0, 0.0, 93.15)), None, None);
    let rot = RotMat::new(vec3(0.0, 1.0, 0.0), vec3(-1.0, 0.0, 0.0), vec3(0.0, 0.0, 1.0));
    let cars = vec![CarInfo::new(1, Team::Blue, None, None), CarInfo::new(2, Team::Orange, None, None)];
    let pads = vec![BoostPad::new(true, None, None)];
    let g = GameState::new(Some(77), Some(num(60.0)), Some(ball), Some(rot), cars.clone(), pads.clone());
    assert_eq!(g.tick_count, 77);
    assert_eq!(g.tick_rate, num(60.0));
    assert_eq!(g.ball, ball);
    assert_eq!(g.ball_rot, rot);
    assert_eq!(g.cars, cars);
    assert_eq!(g.pads, pads);
}
