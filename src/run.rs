use vstd::prelude::*;
use crate::error::GpuError;

verus! {

/// Where a pipeline run stands.
#[derive(Clone, Copy, Debug, PartialEq, Eq, Structural)]
pub enum RunState {
    Created,
    ResourcesAllocated,
    Recorded,
    Submitted,
    Completed,
}

/// A step a pipeline run takes, or an outcome reported to it.
#[derive(Clone, Copy, Debug, PartialEq, Eq, Structural)]
pub enum RunEvent {
    Allocate,
    Record,
    Submit,
    WaitCompleted,
    WaitTimedOut,
    Read,
}

/// Position of a state along the run.
pub open spec fn rank(s: RunState) -> int {
    match s {
        RunState::Created => 0,
        RunState::ResourcesAllocated => 1,
        RunState::Recorded => 2,
        RunState::Submitted => 3,
        RunState::Completed => 4,
    }
}

/// The transition table of a run. Allocation may repeat before recording;
/// reading is allowed only once completion was observed; a timed-out wait
/// leaves the run submitted so that the caller may wait again.
pub open spec fn transition(s: RunState, e: RunEvent) -> Result<RunState, GpuError> {
    match (s, e) {
        (RunState::Created, RunEvent::Allocate) => Ok(RunState::ResourcesAllocated),
        (RunState::ResourcesAllocated, RunEvent::Allocate) => Ok(RunState::ResourcesAllocated),
        (RunState::ResourcesAllocated, RunEvent::Record) => Ok(RunState::Recorded),
        (RunState::Recorded, RunEvent::Submit) => Ok(RunState::Submitted),
        (RunState::Submitted, RunEvent::WaitCompleted) => Ok(RunState::Completed),
        (RunState::Submitted, RunEvent::WaitTimedOut) => Err(GpuError::TimedOut),
        (RunState::Completed, RunEvent::Read) => Ok(RunState::Completed),
        (_, RunEvent::Read) => Err(GpuError::NotSynchronized),
        _ => Err(GpuError::InvalidRecordingState),
    }
}

/// Takes one step of a run. On success no state is skipped, and `Completed`
/// is entered only through an observed completion.
pub fn advance(s: RunState, e: RunEvent) -> (r: Result<RunState, GpuError>)
    ensures
        r == transition(s, e),
        r matches Ok(n) ==> rank(n) == rank(s) || rank(n) == rank(s) + 1,
        r matches Ok(n) ==> (n == RunState::Completed && s != RunState::Completed ==> e
            == RunEvent::WaitCompleted),
        e == RunEvent::Read ==> (r is Ok <==> s == RunState::Completed),
{
    match (s, e) {
        (RunState::Created, RunEvent::Allocate) => Ok(RunState::ResourcesAllocated),
        (RunState::ResourcesAllocated, RunEvent::Allocate) => Ok(RunState::ResourcesAllocated),
        (RunState::ResourcesAllocated, RunEvent::Record) => Ok(RunState::Recorded),
        (RunState::Recorded, RunEvent::Submit) => Ok(RunState::Submitted),
        (RunState::Submitted, RunEvent::WaitCompleted) => Ok(RunState::Completed),
        (RunState::Submitted, RunEvent::WaitTimedOut) => Err(GpuError::TimedOut),
        (RunState::Completed, RunEvent::Read) => Ok(RunState::Completed),
        (_, RunEvent::Read) => Err(GpuError::NotSynchronized),
        _ => Err(GpuError::InvalidRecordingState),
    }
}

} // verus!
