use vstd::prelude::*;

verus! {

/// Where a task stands in its life cycle; moved on by the scheduler only.
#[derive(Clone, Copy, Debug, PartialEq, Eq, Structural)]
pub enum TaskStatus {
    UnInit,
    Ready,
    Running,
    Exited,
}

} // verus!
