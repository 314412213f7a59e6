//! The one recoverable failure: asking for something the simulation does
//! not hold.

use vstd::prelude::*;

verus! {

/// A request named a car or a boost pad that the simulation does not hold.
/// The request was turned down and nothing was changed.
#[derive(Clone, Copy, Debug, PartialEq, Eq, Structural)]
pub enum LookupError {
    /// No car is registered under this id.
    CarNotFound(u32),
    /// The pitch has no pad at this index.
    PadNotFound(usize),
}

} // verus!
