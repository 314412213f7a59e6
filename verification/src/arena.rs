//! The rules of a simulation handle.
//!
//! The engine aborts when it is asked for a car or a pad that it does not
//! hold. A handle therefore decides, before it calls the engine, whether a
//! request can be served, and turns down the ones that cannot. [`Arena`] is
//! what the engine last reported about one simulation; each method answers a
//! host's request from it, or says what is to be handed to the engine.

use vstd::prelude::*;
use crate::ball::Ball;
use crate::car::Car;
use crate::config::{CarConfig, CarControls};
use crate::error::LookupError;
use crate::kinds::{GameMode, Team};
use crate::math::RotMat;
use crate::native;
use crate::pad::{BoostPadState, BoostPadStatic};
use crate::scalar::Scalar;
use crate::state::{
    all_cars_known, car_position, find_car, is_first_unknown, knows_car, GameState, GameStateView,
};

verus! {

/// One simulation as the engine last reported it.
#[derive(Clone, Debug)]
pub struct Arena {
    pub state: native::GameState,
}

impl View for Arena {
    type V = native::GameStateView;

    open spec fn view(&self) -> native::GameStateView {
        self.state@
    }
}

/// The ids of the cars listed, in order.
pub open spec fn car_ids(cars: Seq<native::CarInfo>) -> Seq<u32> {
    Seq::new(cars.len(), |i: int| cars[i].id)
}

/// Whether two pad states compare equal: flags and car ids the same, and
/// cooldowns equal as numbers.
pub open spec fn pad_states_agree(a: native::BoostPadState, b: native::BoostPadState) -> bool {
    &&& a.is_active == b.is_active
    &&& a.cooldown.num_eq_spec(b.cooldown)
    &&& a.cur_locked_car_id == b.cur_locked_car_id
    &&& a.prev_locked_car_id == b.prev_locked_car_id
}

/// Whether two simulations compare equal: tick rates equal as numbers, the
/// same tick count, the same car ids in the same order, and as many pads,
/// each in a state that compares equal to its counterpart's.
pub open spec fn arenas_agree(a: native::GameStateView, b: native::GameStateView) -> bool {
    &&& a.tick_rate.num_eq_spec(b.tick_rate)
    &&& a.tick_count == b.tick_count
    &&& a.cars.len() == b.cars.len()
    &&& forall|i: int| 0 <= i < a.cars.len() ==> (#[trigger] a.cars[i]).id == b.cars[i].id
    &&& a.pads.len() == b.pads.len()
    &&& forall|i: int|
        0 <= i < a.pads.len() ==> pad_states_agree((#[trigger] a.pads[i]).state, b.pads[i].state)
}

/// Whether `i` is the first place in a batch of inputs whose car the
/// engine does not hold.
pub open spec fn is_first_unknown_input(
    batch: Seq<(u32, CarControls)>,
    known: Seq<native::CarInfo>,
    i: int,
) -> bool {
    &&& 0 <= i < batch.len()
    &&& !knows_car(known, batch[i].0)
    &&& forall|j: int| 0 <= j < i ==> knows_car(known, (#[trigger] batch[j]).0)
}

/// Whether the engine holds the car of every input in a batch.
pub open spec fn all_inputs_known(
    batch: Seq<(u32, CarControls)>,
    known: Seq<native::CarInfo>,
) -> bool {
    forall|i: int| 0 <= i < batch.len() ==> knows_car(known, (#[trigger] batch[i]).0)
}

/// A batch of inputs as the engine takes it: the same ids in the same
/// order, each with the engine's copy of its input.
pub open spec fn inputs_to_native(batch: Seq<(u32, CarControls)>) -> Seq<
    (u32, native::CarControls),
> {
    Seq::new(batch.len(), |i: int| (batch[i].0, batch[i].1.to_native_spec()))
}

/// Ticks per second of a simulation that was not given a rate.
pub const DEFAULT_TICK_RATE: u8 = 120;

/// The tick rate a simulation is created with: the rate asked for, or 120
/// where none is given.
pub open spec fn rate_or_default(tick_rate: Option<u8>) -> u8 {
    match tick_rate {
        Some(rate) => rate,
        None => DEFAULT_TICK_RATE,
    }
}

/// The number of ticks a step advances by: the count asked for, or one
/// where none is given.
pub open spec fn ticks_or_one(ticks: Option<u32>) -> u32 {
    match ticks {
        Some(ticks) => ticks,
        None => 1,
    }
}

fn pad_state_eq(a: &native::BoostPadState, b: &native::BoostPadState) -> (r: bool)
    ensures
        r == pad_states_agree(*a, *b),
{
    a.is_active == b.is_active && a.cooldown.num_eq(b.cooldown) && a.cur_locked_car_id
        == b.cur_locked_car_id && a.prev_locked_car_id == b.prev_locked_car_id
}

impl Arena {
    /// Wraps what the engine reported.
    pub fn new(state: native::GameState) -> (r: Arena)
        ensures
            r.state == state,
    {
        Arena { state }
    }

    /// What to hand to the engine to create a simulation: the game mode in
    /// the engine's terms, and the tick rate in ticks per second, 120 where
    /// the host gave none.
    pub fn create(game_mode: GameMode, tick_rate: Option<u8>) -> (r: (native::GameMode, u8))
        ensures
            r.0 == game_mode.to_native_spec(),
            r.1 == rate_or_default(tick_rate),
    {
        (
            game_mode.to_native(),
            match tick_rate {
                Some(rate) => rate,
                None => DEFAULT_TICK_RATE,
            },
        )
    }

    /// Ticks per second, as the engine reports it.
    pub fn get_tick_rate(&self) -> (r: Scalar)
        ensures
            r == self@.tick_rate,
    {
        self.state.tick_rate
    }

    /// Ticks simulated so far.
    pub fn get_tick_count(&self) -> (r: u64)
        ensures
            r == self@.tick_count,
    {
        self.state.tick_count
    }

    /// How many cars are registered.
    pub fn num_cars(&self) -> (r: usize)
        ensures
            r == self@.cars.len(),
    {
        self.state.cars.len()
    }

    /// How many boost pads the pitch has.
    pub fn num_pads(&self) -> (r: usize)
        ensures
            r == self@.pads.len(),
    {
        self.state.pads.len()
    }

    /// The ids of the registered cars, in the engine's order.
    pub fn get_cars(&self) -> (r: Vec<u32>)
        ensures
            r@ == car_ids(self@.cars),
    {
        let mut ids: Vec<u32> = Vec::new();
        let mut i: usize = 0;
        while i < self.state.cars.len()
            invariant
                i <= self.state.cars.len(),
                ids@.len() == i,
                forall|j: int| 0 <= j < i ==> ids@[j] == (#[trigger] self.state.cars@[j]).id,
            decreases self.state.cars.len() - i,
        {
            ids.push(self.state.cars[i].id);
            i += 1;
        }
        proof {
            assert(ids@ =~= car_ids(self@.cars));
        }
        ids
    }

    /// Whether a car is registered under `id`.
    pub fn has_car(&self, id: u32) -> (r: bool)
        ensures
            r == knows_car(self@.cars, id),
    {
        find_car(&self.state.cars, id).is_some()
    }

    /// The ball's motion.
    pub fn get_ball(&self) -> (r: Ball)
        ensures
            r == Ball::from_native_spec(self@.ball),
    {
        Ball::from_native(&self.state.ball)
    }

    /// The ball's orientation.
    pub fn get_ball_rotation(&self) -> (r: RotMat)
        ensures
            r == RotMat::from_native_spec(self@.ball.rot_mat),
    {
        RotMat::from_native(self.state.ball.rot_mat)
    }

    /// The state of the car registered under `id`; a lookup failure where
    /// there is none.
    pub fn get_car(&self, id: u32) -> (r: Result<Car, LookupError>)
        ensures
            r.is_ok() == knows_car(self@.cars, id),
            r.is_ok() ==> r.unwrap() == Car::from_native_spec(
                self@.cars[car_position(self@.cars, id)].state,
            ),
            r.is_err() ==> r.unwrap_err() == LookupError::CarNotFound(id),
    {
        match find_car(&self.state.cars, id) {
            Some(at) => Ok(Car::from_native(&self.state.cars[at].state)),
            None => Err(LookupError::CarNotFound(id)),
        }
    }

    /// The fixed part of the pad at `index`; a lookup failure where the
    /// pitch has no such pad.
    pub fn get_pad_static(&self, index: usize) -> (r: Result<BoostPadStatic, LookupError>)
        ensures
            r.is_ok() == (index < self@.pads.len()),
            r.is_ok() ==> r.unwrap() == BoostPadStatic::from_native_spec(
                self@.pads[index as int].config,
            ),
            r.is_err() ==> r.unwrap_err() == LookupError::PadNotFound(index),
    {
        if index < self.state.pads.len() {
            Ok(BoostPadStatic::from_native(&self.state.pads[index].config))
        } else {
            Err(LookupError::PadNotFound(index))
        }
    }

    /// The changing part of the pad at `index`; a lookup failure where the
    /// pitch has no such pad.
    pub fn get_pad_state(&self, index: usize) -> (r: Result<BoostPadState, LookupError>)
        ensures
            r.is_ok() == (index < self@.pads.len()),
            r.is_ok() ==> r.unwrap() == BoostPadState::from_native_spec(
                self@.pads[index as int].state,
            ),
            r.is_err() ==> r.unwrap_err() == LookupError::PadNotFound(index),
    {
        if index < self.state.pads.len() {
            Ok(BoostPadState::from_native(&self.state.pads[index].state))
        } else {
            Err(LookupError::PadNotFound(index))
        }
    }

    /// A snapshot of the whole simulation.
    pub fn get_game_state(&self) -> (r: GameState)
        ensures
            r@ == GameStateView::from_native_spec(self@),
    {
        GameState::from_native(&self.state)
    }

    /// The number of ticks to advance by: `ticks`, or one where it is left
    /// out.
    pub fn step(ticks: Option<u32>) -> (r: u32)
        ensures
            r == ticks_or_one(ticks),
    {
        match ticks {
            Some(ticks) => ticks,
            None => 1,
        }
    }

    /// What to hand to the engine to register a car: its team and its
    /// geometry in the engine's terms. The engine issues the id.
    pub fn add_car(team: Team, config: &CarConfig) -> (r: (native::Team, native::CarConfig))
        ensures
            r.0 == team.to_native_spec(),
            r.1 == config.to_native_spec(),
    {
        (team.to_native(), config.to_native())
    }

    /// The ball to hand to the engine: the engine's own, with the motion
    /// replaced by `ball`'s.
    pub fn set_ball(&self, ball: &Ball) -> (r: native::BallState)
        ensures
            r == ball.to_native_spec(self@.ball),
    {
        ball.to_native(&self.state.ball)
    }

    /// The car state to hand to the engine for the car registered under
    /// `id`: the engine's own, laid over with `car`. A lookup failure, and
    /// nothing to hand over, where no car is registered under `id`.
    pub fn set_car(&self, id: u32, car: &Car) -> (r: Result<native::CarState, LookupError>)
        ensures
            r.is_ok() == knows_car(self@.cars, id),
            r.is_ok() ==> r.unwrap() == car.to_native_spec(
                self@.cars[car_position(self@.cars, id)].state,
            ),
            r.is_err() ==> r.unwrap_err() == LookupError::CarNotFound(id),
    {
        match find_car(&self.state.cars, id) {
            Some(at) => Ok(car.to_native(&self.state.cars[at].state)),
            None => Err(LookupError::CarNotFound(id)),
        }
    }

    /// The input to hand to the engine for the car registered under `id`.
    /// A lookup failure, and nothing to hand over, where no car is
    /// registered under `id`.
    pub fn set_car_controls(&self, id: u32, controls: &CarControls) -> (r: Result<
        native::CarControls,
        LookupError,
    >)
        ensures
            r.is_ok() == knows_car(self@.cars, id),
            r.is_ok() ==> r.unwrap() == controls.to_native_spec(),
            r.is_err() ==> r.unwrap_err() == LookupError::CarNotFound(id),
    {
        if self.has_car(id) {
            Ok(controls.to_native())
        } else {
            Err(LookupError::CarNotFound(id))
        }
    }

    /// The batch of inputs to hand to the engine, all of it or none.
    ///
    /// Where every id in `batch` has a car, the result is the whole batch
    /// in the engine's terms. Where one has not, the result is a lookup
    /// failure that names the first such id in the batch, and there is
    /// nothing to hand over: no input of the batch reaches the engine.
    pub fn set_all_controls(&self, batch: &Vec<(u32, CarControls)>) -> (r: Result<
        Vec<(u32, native::CarControls)>,
        LookupError,
    >)
        ensures
            r.is_ok() == all_inputs_known(batch@, self@.cars),
            match r {
                Ok(inputs) => inputs@ == inputs_to_native(batch@),
                Err(LookupError::CarNotFound(id)) => exists|i: int|
                    is_first_unknown_input(batch@, self@.cars, i) && (#[trigger] batch@[i]).0
                        == id,
                Err(LookupError::PadNotFound(_)) => false,
            },
    {
        let mut inputs: Vec<(u32, native::CarControls)> = Vec::new();
        let mut i: usize = 0;
        while i < batch.len()
            invariant
                i <= batch.len(),
                inputs@.len() == i,
                forall|j: int| 0 <= j < i ==> knows_car(self@.cars, (#[trigger] batch@[j]).0),
                forall|j: int|
                    0 <= j < i ==> inputs@[j] == ((#[trigger] batch@[j]).0, batch@[j].1.to_native_spec()),
            decreases batch.len() - i,
        {
            let id: u32 = batch[i].0;
            if !self.has_car(id) {
                return Err(LookupError::CarNotFound(id));
            }
            inputs.push((id, batch[i].1.to_native()));
            i += 1;
        }
        proof {
            assert(inputs@ =~= inputs_to_native(batch@));
        }
        Ok(inputs)
    }

    /// The pad state to hand to the engine for the pad at `index`. A lookup
    /// failure, and nothing to hand over, where the pitch has no such pad.
    pub fn set_pad_state(&self, index: usize, state: &BoostPadState) -> (r: Result<
        native::BoostPadState,
        LookupError,
    >)
        ensures
            r.is_ok() == (index < self@.pads.len()),
            r.is_ok() ==> r.unwrap() == state.to_native_spec(),
            r.is_err() ==> r.unwrap_err() == LookupError::PadNotFound(index),
    {
        if index < self.state.pads.len() {
            Ok(state.to_native())
        } else {
            Err(LookupError::PadNotFound(index))
        }
    }

    /// The state to hand to the engine to restore a snapshot, all of it or
    /// none; see [`GameState::to_native`].
    pub fn set_game_state(&self, game_state: &GameState) -> (r: Result<
        native::GameState,
        LookupError,
    >)
        ensures
            r.is_ok() == game_state@.fits(self@),
            match r {
                Ok(state) => state@ == game_state@.to_native_spec(self@),
                Err(LookupError::CarNotFound(id)) => exists|i: int|
                    is_first_unknown(game_state@.cars, self@.cars, i) && (
                    #[trigger] game_state@.cars[i]).id == id,
                Err(LookupError::PadNotFound(index)) => {
                    &&& all_cars_known(game_state@.cars, self@.cars)
                    &&& game_state@.pads.len() > self@.pads.len()
                    &&& index == self@.pads.len()
                },
            },
    {
        game_state.to_native(&self.state)
    }

    /// Whether this simulation and `other` compare equal: the same tick
    /// rate and tick count, the same car ids in the same order, and as many
    /// pads in states that compare equal. Numbers are compared as numbers,
    /// so a NaN makes two simulations differ.
    pub fn agrees_with(&self, other: &Arena) -> (r: bool)
        ensures
            r == arenas_agree(self@, other@),
    {
        if !self.state.tick_rate.num_eq(other.state.tick_rate) {
            return false;
        }
        if self.state.tick_count != other.state.tick_count {
            return false;
        }
        if self.state.cars.len() != other.state.cars.len() {
            return false;
        }
        if self.state.pads.len() != other.state.pads.len() {
            return false;
        }
        let mut i: usize = 0;
        while i < self.state.cars.len()
            invariant
                i <= self.state.cars.len(),
                self.state.cars.len() == other.state.cars.len(),
                forall|j: int|
                    0 <= j < i ==> (#[trigger] self@.cars[j]).id == other@.cars[j].id,
            decreases self.state.cars.len() - i,
        {
            if self.state.cars[i].id != other.state.cars[i].id {
                return false;
            }
            i += 1;
        }
        let mut k: usize = 0;
        while k < self.state.pads.len()
            invariant
                k <= self.state.pads.len(),
                self.state.pads.len() == other.state.pads.len(),
                forall|j: int|
                    0 <= j < k ==> pad_states_agree(
                        (#[trigger] self@.pads[j]).state,
                        other@.pads[j].state,
                    ),
            decreases self.state.pads.len() - k,
        {
            if !pad_state_eq(&self.state.pads[k].state, &other.state.pads[k].state) {
                return false;
            }
            k += 1;
        }
        true
    }
}

impl PartialEq for Arena {
    /// Equality of simulations, as [`Arena::agrees_with`] decides it.
    fn eq(&self, other: &Arena) -> (r: bool) {
        self.agrees_with(other)
    }
}

impl vstd::std_specs::cmp::PartialEqSpecImpl for Arena {
    open spec fn obeys_eq_spec() -> bool {
        true
    }

    open spec fn eq_spec(&self, other: &Arena) -> bool {
        arenas_agree(self@, other@)
    }
}

impl Car {
    /// The car this one is in contact with, as `arena` holds it: `None`
    /// where this car touches no other, and a lookup failure where the car
    /// it names is not registered.
    pub fn get_contacting_car(&self, arena: &Arena) -> (r: Result<Option<Car>, LookupError>)
        ensures
            match self.contacting_car_id_spec() {
                None => r == Ok::<Option<Car>, LookupError>(None),
                Some(id) => if knows_car(arena@.cars, id) {
                    r == Ok::<Option<Car>, LookupError>(
                        Some(
                            Car::from_native_spec(arena@.cars[car_position(arena@.cars, id)].state),
                        ),
                    )
                } else {
                    r == Err::<Option<Car>, LookupError>(LookupError::CarNotFound(id))
                },
            },
    {
        match self.contacting_car_id() {
            None => Ok(None),
            Some(id) => match arena.get_car(id) {
                Ok(car) => Ok(Some(car)),
                Err(e) => Err(e),
            },
        }
    }
}

} // verus!
