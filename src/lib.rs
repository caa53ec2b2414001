//! Undo and redo for any application state, by regeneration.
//!
//! A history is a chain of snapshots and commands. An old state is
//! regenerated by restoring the nearest snapshot before it and running the
//! commands that follow, in order.
pub mod metrics;
mod history;
pub mod snapshot;
pub mod interface;
mod clock;
mod gur;
pub mod ur;
pub mod cur;
pub mod aur;
pub mod acur;
pub mod triggers;
pub mod action;
pub mod memento;
pub mod prelude;
