//! Verified core of a game-content installer: the manifest model, the
//! installation pipeline state machine, the bounded-concurrency download
//! engine, the loader-installer decision logic, and the launcher
//! registration writer.

pub mod download;
pub mod installer;
pub mod json;
pub mod launcher;
pub mod manifest;
pub mod pipeline;
pub mod runtime;
pub mod text;

use vstd::prelude::*;

verus! {

/// The largest number of download tasks that may be transferring at once.
pub const MAX_ACTIVE_DOWNLOADS: usize = 4;

} // verus!
