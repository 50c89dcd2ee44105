use vstd::prelude::*;

verus! {

/// A zero-timeout query found nothing ready yet.
pub const NOT_READY: i32 = 1;

/// A bounded wait ran past its deadline.
pub const TIMEOUT: i32 = 2;

/// The surface changed so that the swapchain can no longer present to it.
pub const ERROR_OUT_OF_DATE: i32 = -1000001004;

/// What a surface operation says about the swapchain it ran on.
#[derive(Clone, Copy, Debug, PartialEq, Eq, Structural)]
pub enum SurfaceStatus {
    Ready,
    SuboptimalButUsable,
    OutOfDate,
}

/// How a failed call is to be treated.
#[derive(Clone, Copy, Debug, PartialEq, Eq, Structural)]
pub enum Failure {
    /// Expected and recoverable: rebuild the swapchain.
    OutOfDate,
    /// A deadline passed; nothing is broken.
    TimedOut,
    /// Terminal. The code is the one the failing call reported.
    Fatal(i32),
}

/// Why a renderer or a build gave up. Codes reported by the device or the
/// surface are passed on unchanged.
#[derive(Clone, Copy, Debug, PartialEq, Eq, Structural)]
pub enum Fault {
    /// A device or surface call failed with this result code.
    Device(i32),
    /// The presentation engine created a chain without images.
    NoImages,
    /// The presentation engine created a chain with fewer images than were
    /// asked for.
    TooFewImages,
    /// The number of command buffers handed back differs from the number of
    /// images.
    BufferCount,
    /// An acquire handed back this image index, which the chain does not have.
    ImageOutOfRange(u32),
    /// A reply that does not answer the request that was pending.
    Protocol,
    /// The renderer was used after it shut down.
    ShutDown,
}

/// The treatment of result code `code`, coming from a call that failed.
pub open spec fn failure_of(code: i32) -> Failure {
    if code == ERROR_OUT_OF_DATE {
        Failure::OutOfDate
    } else if code == TIMEOUT || code == NOT_READY {
        Failure::TimedOut
    } else {
        Failure::Fatal(code)
    }
}

/// Sorts the result code of a failed call into recoverable, timed out and
/// fatal.
pub fn classify(code: i32) -> (failure: Failure)
    ensures
        failure == failure_of(code),
{
    if code == ERROR_OUT_OF_DATE {
        Failure::OutOfDate
    } else if code == TIMEOUT || code == NOT_READY {
        Failure::TimedOut
    } else {
        Failure::Fatal(code)
    }
}

/// The fault to report once a teardown is done. `cause` is what led to the
/// teardown, if a fault did; `drained` is what the drain came to, nothing
/// where none was asked for. The cause comes first; a drain that failed
/// is a fault of the device with the code it reported.
pub open spec fn teardown_fault(cause: Option<Fault>, drained: Result<(), i32>) -> Option<
    Fault,
> {
    match cause {
        Some(fault) => Some(fault),
        None => match drained {
            Ok(_) => None,
            Err(code) => Some(Fault::Device(code)),
        },
    }
}

/// Says what to report after a teardown. The releases are made whatever
/// the drain came to; its failure is reported afterwards, unless a fault
/// had led to the teardown, which is then the one to report.
pub fn after_teardown(cause: Option<Fault>, drained: Result<(), i32>) -> (fault: Option<Fault>)
    ensures
        fault == teardown_fault(cause, drained),
{
    match cause {
        Some(fault) => Some(fault),
        None => match drained {
            Ok(_) => None,
            Err(code) => Some(Fault::Device(code)),
        },
    }
}

/// The status a successful surface operation carries: `suboptimal` is the
/// flag the operation handed back.
pub open spec fn status_of(suboptimal: bool) -> SurfaceStatus {
    if suboptimal {
        SurfaceStatus::SuboptimalButUsable
    } else {
        SurfaceStatus::Ready
    }
}

} // verus!
