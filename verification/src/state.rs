//! Whole-simulation snapshots and the cars listed in them.

use vstd::prelude::*;
use crate::ball::Ball;
use crate::car::Car;
use crate::config::CarConfig;
use crate::error::LookupError;
use crate::kinds::Team;
use crate::math::RotMat;
use crate::native;
use crate::pad::BoostPad;
use crate::scalar::Scalar;

verus! {

/// One car in a snapshot: its id, its team, its state and its geometry.
#[derive(Clone, Copy, Debug, PartialEq, Eq, Structural)]
pub struct CarInfo {
    pub id: u32,
    pub team: Team,
    pub state: Car,
    pub config: CarConfig,
}

/// The car state given, or the default one where none is.
pub open spec fn car_or_default(state: Option<Car>) -> Car {
    match state {
        Some(state) => state,
        None => Car::default_spec(),
    }
}

/// The geometry given, or the all-zero one where none is.
pub open spec fn config_or_default(config: Option<CarConfig>) -> CarConfig {
    match config {
        Some(config) => config,
        None => CarConfig::default_spec(),
    }
}

impl CarInfo {
    /// Builds an entry from a host's arguments; a state or a geometry left
    /// out is the default one.
    pub fn new(id: u32, team: Team, state: Option<Car>, config: Option<CarConfig>) -> (r: CarInfo)
        ensures
            r == (CarInfo {
                id,
                team,
                state: car_or_default(state),
                config: config_or_default(config),
            }),
    {
        CarInfo {
            id,
            team,
            state: match state {
                Some(state) => state,
                None => Car::default(),
            },
            config: match config {
                Some(config) => config,
                None => CarConfig::default(),
            },
        }
    }

    pub open spec fn from_native_spec(info: native::CarInfo) -> CarInfo {
        CarInfo {
            id: info.id,
            team: Team::from_native_spec(info.team),
            state: Car::from_native_spec(info.state),
            config: CarConfig::from_native_spec(info.config),
        }
    }

    /// The engine's entry for this car, its state laid over `base`.
    pub open spec fn to_native_spec(self, base: native::CarState) -> native::CarInfo {
        native::CarInfo {
            id: self.id,
            team: self.team.to_native_spec(),
            state: self.state.to_native_spec(base),
            config: self.config.to_native_spec(),
        }
    }

    /// The host's copy of an engine entry.
    pub fn from_native(info: &native::CarInfo) -> (r: CarInfo)
        ensures
            r == CarInfo::from_native_spec(*info),
    {
        CarInfo {
            id: info.id,
            team: Team::from_native(info.team),
            state: Car::from_native(&info.state),
            config: CarConfig::from_native(&info.config),
        }
    }

    /// The engine's entry for this car. `base` is the state of the car as
    /// the engine has it now; see [`Car::to_native`].
    pub fn to_native(&self, base: &native::CarState) -> (r: native::CarInfo)
        ensures
            r == self.to_native_spec(*base),
    {
        native::CarInfo {
            id: self.id,
            team: self.team.to_native(),
            state: self.state.to_native(base),
            config: self.config.to_native(),
        }
    }
}

/// A snapshot of one simulation: tick rate and count, the ball and its
/// orientation, every car and every boost pad.
#[derive(Clone, Debug, PartialEq, Eq)]
pub struct GameState {
    pub tick_rate: Scalar,
    pub tick_count: u64,
    pub ball: Ball,
    pub ball_rot: RotMat,
    pub cars: Vec<CarInfo>,
    pub pads: Vec<BoostPad>,
}

/// A [`GameState`] with its lists as sequences.
#[verifier::ext_equal]
pub struct GameStateView {
    pub tick_rate: Scalar,
    pub tick_count: u64,
    pub ball: Ball,
    pub ball_rot: RotMat,
    pub cars: Seq<CarInfo>,
    pub pads: Seq<BoostPad>,
}

impl View for GameState {
    type V = GameStateView;

    open spec fn view(&self) -> GameStateView {
        GameStateView {
            tick_rate: self.tick_rate,
            tick_count: self.tick_count,
            ball: self.ball,
            ball_rot: self.ball_rot,
            cars: self.cars@,
            pads: self.pads@,
        }
    }
}

/// Pattern of the number 120, the tick rate of a simulation that was not
/// given one.
pub const DEFAULT_TICK_RATE_BITS: u32 = 0x42F0_0000;

/// The tick rate given, or 120 where none is.
pub open spec fn tick_rate_or_default(tick_rate: Option<Scalar>) -> Scalar {
    match tick_rate {
        Some(rate) => rate,
        None => Scalar { bits: DEFAULT_TICK_RATE_BITS },
    }
}

/// The tick count given, or zero where none is.
pub open spec fn tick_count_or_zero(tick_count: Option<u64>) -> u64 {
    match tick_count {
        Some(count) => count,
        None => 0,
    }
}

/// The ball given, or one at rest at the origin where none is.
pub open spec fn ball_or_default(ball: Option<Ball>) -> Ball {
    match ball {
        Some(ball) => ball,
        None => Ball::default_spec(),
    }
}

/// Whether the engine holds a car under `id`.
pub open spec fn knows_car(known: Seq<native::CarInfo>, id: u32) -> bool {
    exists|i: int| 0 <= i < known.len() && (#[trigger] known[i]).id == id
}

/// Whether `i` is the first place in `known` at which the car `id` stands.
pub open spec fn is_car_position(known: Seq<native::CarInfo>, id: u32, i: int) -> bool {
    &&& 0 <= i < known.len()
    &&& known[i].id == id
    &&& forall|j: int| 0 <= j < i ==> (#[trigger] known[j]).id != id
}

/// The first place in `known` at which the car `id` stands, where the
/// engine holds such a car.
pub open spec fn car_position(known: Seq<native::CarInfo>, id: u32) -> int
    recommends
        knows_car(known, id),
{
    choose|i: int| is_car_position(known, id, i)
}

/// Whether `i` is the first place in `cars` whose id the engine does not
/// hold.
pub open spec fn is_first_unknown(
    cars: Seq<CarInfo>,
    known: Seq<native::CarInfo>,
    i: int,
) -> bool {
    &&& 0 <= i < cars.len()
    &&& !knows_car(known, cars[i].id)
    &&& forall|j: int| 0 <= j < i ==> knows_car(known, (#[trigger] cars[j]).id)
}

/// Whether the engine holds every car listed.
pub open spec fn all_cars_known(cars: Seq<CarInfo>, known: Seq<native::CarInfo>) -> bool {
    forall|i: int| 0 <= i < cars.len() ==> knows_car(known, (#[trigger] cars[i]).id)
}

/// A position is where a car stands first, and no other position is.
pub proof fn lemma_car_position_unique(known: Seq<native::CarInfo>, id: u32, i: int)
    requires
        is_car_position(known, id, i),
    ensures
        knows_car(known, id),
        car_position(known, id) == i,
{
    let chosen = car_position(known, id);
    assert(is_car_position(known, id, chosen));
    if chosen < i {
        assert(known[chosen].id != id);
    }
    if i < chosen {
        assert(known[i].id != id);
    }
}

/// Looks a car up by id among the engine's entries: the first place it
/// stands at, or `None` where the engine holds no such car.
pub fn find_car(known: &Vec<native::CarInfo>, id: u32) -> (r: Option<usize>)
    ensures
        r.is_some() == knows_car(known@, id),
        r.is_some() ==> r.unwrap() as int == car_position(known@, id),
        r.is_some() ==> is_car_position(known@, id, r.unwrap() as int),
{
    let mut i: usize = 0;
    while i < known.len()
        invariant
            i <= known.len(),
            forall|j: int| 0 <= j < i ==> (#[trigger] known@[j]).id != id,
        decreases known.len() - i,
    {
        if known[i].id == id {
            proof {
                lemma_car_position_unique(known@, id, i as int);
            }
            return Some(i);
        }
        i += 1;
    }
    None
}

impl GameStateView {
    /// The host's snapshot of what the engine holds: tick rate and count as
    /// they are, the ball's motion and its orientation apart, and every car
    /// and every pad in the engine's order.
    pub open spec fn from_native_spec(state: native::GameStateView) -> GameStateView {
        GameStateView {
            tick_rate: state.tick_rate,
            tick_count: state.tick_count,
            ball: Ball::from_native_spec(state.ball),
            ball_rot: RotMat::from_native_spec(state.ball.rot_mat),
            cars: Seq::new(state.cars.len(), |i: int| CarInfo::from_native_spec(state.cars[i])),
            pads: Seq::new(state.pads.len(), |i: int| BoostPad::from_native_spec(state.pads[i])),
        }
    }

    /// Whether the engine, holding `base`, can take this snapshot whole: it
    /// holds every car listed, and has a pad for every pad listed.
    pub open spec fn fits(self, base: native::GameStateView) -> bool {
        all_cars_known(self.cars, base.cars) && self.pads.len() <= base.pads.len()
    }

    /// The ball to hand to the engine: the snapshot's motion and
    /// orientation laid over the engine's ball.
    pub open spec fn ball_to_native_spec(self, base: native::BallState) -> native::BallState {
        native::BallState {
            rot_mat: self.ball_rot.to_native_spec(),
            ..self.ball.to_native_spec(base)
        }
    }

    /// The state to hand to the engine, given that it holds `base` now.
    /// Tick rate and count are the snapshot's. The game mode is the
    /// engine's. Each car listed is laid over the engine's state of the car
    /// of that id, and the ball over the engine's ball.
    pub open spec fn to_native_spec(self, base: native::GameStateView) -> native::GameStateView
        recommends
            self.fits(base),
    {
        native::GameStateView {
            tick_rate: self.tick_rate,
            tick_count: self.tick_count,
            game_mode: base.game_mode,
            cars: Seq::new(
                self.cars.len(),
                |i: int|
                    self.cars[i].to_native_spec(
                        base.cars[car_position(base.cars, self.cars[i].id)].state,
                    ),
            ),
            ball: self.ball_to_native_spec(base.ball),
            pads: Seq::new(self.pads.len(), |i: int| self.pads[i].to_native_spec()),
        }
    }
}

impl GameState {
    /// Builds a snapshot from a host's arguments. A tick count left out is
    /// zero, a tick rate left out is 120, a ball left out is at rest at the
    /// origin and an orientation left out is the identity.
    pub fn new(
        tick_count: Option<u64>,
        tick_rate: Option<Scalar>,
        ball: Option<Ball>,
        ball_rot: Option<RotMat>,
        cars: Vec<CarInfo>,
        pads: Vec<BoostPad>,
    ) -> (r: GameState)
        ensures
            r@ == (GameStateView {
                tick_rate: tick_rate_or_default(tick_rate),
                tick_count: tick_count_or_zero(tick_count),
                ball: ball_or_default(ball),
                ball_rot: crate::car::rot_mat_or_identity(ball_rot),
                cars: cars@,
                pads: pads@,
            }),
    {
        GameState {
            tick_rate: match tick_rate {
                Some(rate) => rate,
                None => Scalar { bits: DEFAULT_TICK_RATE_BITS },
            },
            tick_count: match tick_count {
                Some(count) => count,
                None => 0,
            },
            ball: match ball {
                Some(ball) => ball,
                None => Ball::default(),
            },
            ball_rot: match ball_rot {
                Some(m) => m,
                None => RotMat::identity(),
            },
            cars,
            pads,
        }
    }

    /// The host's snapshot of what the engine holds.
    pub fn from_native(state: &native::GameState) -> (r: GameState)
        ensures
            r@ == GameStateView::from_native_spec(state@),
    {
        let mut cars: Vec<CarInfo> = Vec::new();
        let mut i: usize = 0;
        while i < state.cars.len()
            invariant
                i <= state.cars.len(),
                cars@.len() == i,
                forall|k: int|
                    0 <= k < i ==> cars@[k] == CarInfo::from_native_spec(
                        #[trigger] state.cars@[k],
                    ),
            decreases state.cars.len() - i,
        {
            cars.push(CarInfo::from_native(&state.cars[i]));
            i += 1;
        }
        let mut pads: Vec<BoostPad> = Vec::new();
        let mut k: usize = 0;
        while k < state.pads.len()
            invariant
                k <= state.pads.len(),
                pads@.len() == k,
                forall|j: int|
                    0 <= j < k ==> pads@[j] == BoostPad::from_native_spec(
                        #[trigger] state.pads@[j],
                    ),
            decreases state.pads.len() - k,
        {
            pads.push(BoostPad::from_native(&state.pads[k]));
            k += 1;
        }
        let r = GameState {
            tick_rate: state.tick_rate,
            tick_count: state.tick_count,
            ball: Ball::from_native(&state.ball),
            ball_rot: RotMat::from_native(state.ball.rot_mat),
            cars,
            pads,
        };
        proof {
            let want = GameStateView::from_native_spec(state@);
            assert(r@.cars =~= want.cars);
            assert(r@.pads =~= want.pads);
        }
        r
    }

    /// Turns this snapshot into the state to hand to the engine, or turns
    /// it down whole. `base` is what the engine holds now.
    ///
    /// The snapshot is turned down when it lists a car that the engine does
    /// not hold, with the id of the first such car in the list; failing
    /// that, when it lists more pads than the pitch has, with the index of
    /// the first pad that has no place. Otherwise the result is the
    /// snapshot laid over `base`.
    pub fn to_native(&self, base: &native::GameState) -> (r: Result<native::GameState, LookupError>)
        ensures
            r.is_ok() == self@.fits(base@),
            match r {
                Ok(state) => state@ == self@.to_native_spec(base@),
                Err(LookupError::CarNotFound(id)) => exists|i: int|
                    is_first_unknown(self@.cars, base@.cars, i) && (#[trigger] self@.cars[i]).id
                        == id,
                Err(LookupError::PadNotFound(index)) => {
                    &&& all_cars_known(self@.cars, base@.cars)
                    &&& self@.pads.len() > base@.pads.len()
                    &&& index == base@.pads.len()
                },
            },
    {
        let mut cars: Vec<native::CarInfo> = Vec::new();
        let mut i: usize = 0;
        while i < self.cars.len()
            invariant
                i <= self.cars.len(),
                cars@.len() == i,
                forall|j: int| 0 <= j < i ==> knows_car(base@.cars, (#[trigger] self@.cars[j]).id),
                forall|j: int|
                    0 <= j < i ==> cars@[j] == (#[trigger] self@.cars[j]).to_native_spec(
                        base@.cars[car_position(base@.cars, self@.cars[j].id)].state,
                    ),
            decreases self.cars.len() - i,
        {
            let car = &self.cars[i];
            match find_car(&base.cars, car.id) {
                Some(at) => {
                    cars.push(car.to_native(&base.cars[at].state));
                },
                None => {
                    return Err(LookupError::CarNotFound(car.id));
                },
            }
            i += 1;
        }
        if self.pads.len() > base.pads.len() {
            return Err(LookupError::PadNotFound(base.pads.len()));
        }
        let mut pads: Vec<native::BoostPad> = Vec::new();
        let mut k: usize = 0;
        while k < self.pads.len()
            invariant
                k <= self.pads.len(),
                pads@.len() == k,
                forall|j: int|
                    0 <= j < k ==> pads@[j] == (#[trigger] self@.pads[j]).to_native_spec(),
            decreases self.pads.len() - k,
        {
            pads.push(self.pads[k].to_native());
            k += 1;
        }
        let moved = self.ball.to_native(&base.ball);
        let state = native::GameState {
            tick_rate: self.tick_rate,
            tick_count: self.tick_count,
            game_mode: base.game_mode,
            cars,
            ball: native::BallState {
                pos: moved.pos,
                rot_mat: self.ball_rot.to_native(),
                vel: moved.vel,
                ang_vel: moved.ang_vel,
                update_counter: moved.update_counter,
                hs_info: moved.hs_info,
            },
            pads,
        };
        proof {
            let want = self@.to_native_spec(base@);
            assert(state@.cars =~= want.cars);
            assert(state@.pads =~= want.pads);
        }
        Ok(state)
    }
}

} // verus!
