//! The runtime precondition checker's result shaping: the external runtime
//! is invoked with a version-query flag by the caller; this module turns the
//! raw outcome into the reported status.

use vstd::prelude::*;
use crate::text::{spec_first_line, first_line};

verus! {

/// Outcome of the runtime precondition check.
pub struct RuntimeStatus {
    /// Whether the required external runtime could be located and launched.
    pub present: bool,
    /// The first line of its version query's output; empty when absent.
    pub version: String,
}

/// Shape the raw outcome of the version query. A missing or unspawnable
/// executable is a normal negative result with an empty version string —
/// never an error; captured output reports its first line as the version.
pub fn runtime_status(output: Option<&str>) -> (r: RuntimeStatus)
    ensures
        match output {
            Some(out) => r.present && r.version@ == spec_first_line(out@),
            None => !r.present && r.version@ == Seq::<char>::empty(),
        },
{
    match output {
        Some(out) => RuntimeStatus { present: true, version: first_line(out) },
        None => RuntimeStatus { present: false, version: String::new() },
    }
}

} // verus!
