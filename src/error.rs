use vstd::prelude::*;

verus! {

/// Every way a pipeline run can fail. All but `TimedOut` are fatal to the run.
#[derive(Clone, Copy, Debug, PartialEq, Eq, Structural)]
pub enum GpuError {
    NoDeviceAvailable,
    NoSuitableQueueFamily,
    AllocationFailed,
    InvalidRecordingState,
    RecordingIncomplete,
    QueueSubmitFailed,
    NotSynchronized,
    TimedOut,
}

} // verus!
