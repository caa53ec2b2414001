//! Commands as objects.
use vstd::prelude::*;

verus! {

/// An object that turns a state into the next one.
///
/// The result is regenerated by running `execute` again, so it must give
/// the same result each time it runs on the same state. For a command that
/// cannot promise that, use [TryAction].
pub trait Action {
    type State;

    fn execute(&self, prev: Self::State) -> Self::State;
}

/// An object that turns a state into the next one, or fails. It is run at
/// most once per change.
pub trait TryAction {
    type State;
    type Error;

    fn try_execute(&self, prev: Self::State) -> Result<Self::State, Self::Error>;
}

} // verus!
