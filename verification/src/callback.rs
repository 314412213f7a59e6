//! The one event a simulation reports back: a goal.

use vstd::prelude::*;
use crate::kinds::Team;
use crate::native;

verus! {

/// The place where a handle keeps the host's goal callback.
///
/// It holds one callback at most. The engine reports a goal from inside a
/// step, on the thread that steps; the handle then asks this slot what to
/// call and with which team. The callback must not reach back into the
/// handle that is stepping.
pub struct GoalScoredCallback<T> {
    pub callback: Option<T>,
}

impl<T> GoalScoredCallback<T> {
    /// A slot with no callback in it.
    pub fn new() -> (r: GoalScoredCallback<T>)
        ensures
            r.callback.is_none(),
    {
        GoalScoredCallback { callback: None }
    }

    /// Whether a callback is registered.
    pub fn is_registered(&self) -> (r: bool)
        ensures
            r == self.callback.is_some(),
    {
        self.callback.is_some()
    }

    /// Registers `callback` in place of whatever was registered before, and
    /// returns what it replaced. Nothing is chained: from now on goals go
    /// to `callback` alone.
    pub fn set_goal_scored_callback(&mut self, callback: T) -> (previous: Option<T>)
        ensures
            final(self).callback == Some(callback),
            previous == old(self).callback,
    {
        let previous = self.callback.take();
        self.callback = Some(callback);
        previous
    }

    /// What to do about one goal that the engine reported for `team`: the
    /// registered callback together with the team in the host's terms, to
    /// be called once; or nothing, where no callback is registered.
    pub fn goal_scored(&self, team: native::Team) -> (r: Option<(&T, Team)>)
        ensures
            r.is_some() == self.callback.is_some(),
            r.is_some() ==> *r.unwrap().0 == self.callback.unwrap() && r.unwrap().1
                == Team::from_native_spec(team),
    {
        match &self.callback {
            Some(callback) => Some((callback, Team::from_native(team))),
            None => None,
        }
    }
}

} // verus!
