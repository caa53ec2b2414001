//! The traits that most users need.
pub use crate::interface::{IBuilder, IEdit, IEditA, IUndoRedo, ITrigger, ITriggerA};
