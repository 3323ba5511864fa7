//! Result kinds of the native layer and the errors this library reports.
//!
//! The native interface reuses one integer code family both for general calls
//! and for blocking waits.  Here each call category gets its own discriminated
//! kind, so a wait code can never be read as an open code: `NativeStatus` for
//! plain calls, `WaitStatus` for blocking waits with a timeout.

use vstd::prelude::*;

verus! {

/// Outcome of a non-blocking native call (open, calibration, tracker create).
#[derive(Clone, Copy, PartialEq, Eq, Structural, Debug)]
pub enum NativeStatus {
    Succeeded,
    Failed,
}

/// Outcome of a blocking native wait (capture acquisition, tracker enqueue,
/// tracker result pop).
#[derive(Clone, Copy, PartialEq, Eq, Structural, Debug)]
pub enum WaitStatus {
    Succeeded,
    Timeout,
    Failed,
}

/// Failure to open a device session.
#[derive(Clone, Copy, PartialEq, Eq, Structural, Debug)]
pub enum OpenError {
    /// Device enumeration reported zero installed devices.
    NoDevicesInstalled,
    /// The native open call did not report success.
    OpenFailed,
}

/// Failure of a blocking wait, or of an operation that needs a tracker.
#[derive(Clone, Copy, PartialEq, Eq, Structural, Debug)]
pub enum WaitError {
    /// The wait expired before the native layer completed.
    WaitTimeout,
    /// The native layer reported a hard failure.
    WaitFailed,
    /// A tracking operation was requested before tracking was started.
    TrackerNotInitialized,
}

/// Failure to start a tracking session.
#[derive(Clone, Copy, PartialEq, Eq, Structural, Debug)]
pub enum TrackerError {
    /// Calibration retrieval or tracker creation did not succeed.
    TrackerUninitializable,
}

/// One native release step of a session or capture teardown.
///
/// Teardown is returned as an ordered list of these actions; the caller
/// performs each against the native layer.  The order encodes the hard
/// invariants: tracker before device, image and frame before their capture.
#[derive(Clone, Copy, PartialEq, Eq, Structural, Debug)]
pub enum ReleaseAction {
    TrackerShutdown(u64),
    TrackerDestroy(u64),
    StopCameras(u64),
    CloseDevice(u64),
    ReleaseImage(u64),
    ReleaseFrame(u64),
    ReleaseCapture(u64),
}

/// The `WaitError` a failed wait maps to.
pub open spec fn wait_error_of(s: WaitStatus) -> WaitError
    recommends
        s != WaitStatus::Succeeded,
{
    match s {
        WaitStatus::Timeout => WaitError::WaitTimeout,
        _ => WaitError::WaitFailed,
    }
}

} // verus!
