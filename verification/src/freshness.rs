use vstd::prelude::*;

verus! {

/// Whether the output of an earlier run of a task may be reused.
#[derive(Clone, Copy, PartialEq, Eq, Debug, Structural)]
pub enum Freshness {
    /// The inputs of the task are unchanged since its last successful run.
    Fresh,
    /// The task has to be run again.
    Dirty,
}

} // verus!
