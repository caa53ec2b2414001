//! Snapshot triggers.
//!
//! Regenerating an old version replays every command since the snapshot
//! before it, which may take long when commands are heavy. A snapshot
//! trigger is called on each edit with the metrics of the new entry, and
//! when it returns true a snapshot of the new state is stored in place of
//! the command, which bounds the replay.
pub mod snapshot_trigger;
