//! Storing and restoring the state of an object.
use vstd::prelude::*;

verus! {

/// An object that stores its state in a memento and is restored from one.
pub trait Memento: Sized {
    type Target;

    fn to_memento(&self) -> Self::Target;

    fn from_memento(memento: &Self::Target) -> Self;
}

} // verus!
