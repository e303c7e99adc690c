//! The error taxonomy of the capture resource manager.

use vstd::prelude::*;

verus! {

/// The kind of operation a request addressed to a channel.
#[derive(Clone, Copy, PartialEq, Eq, Structural, Debug)]
pub enum Operation {
    Fetch,
    Send,
}

/// Every failure a caller of the capture resource manager can observe.
///
/// All of these are reported per request entry; none aborts the other
/// entries of a batch.
#[derive(Debug)]
pub enum CaptureError {
    /// Every candidate capture backend failed to launch.
    NoBackendAvailable,
    /// A backend launched but reported an error before becoming ready.
    BackendStartupFailed,
    /// The transport endpoint of a live stream was never learned.
    PortNotAllocated,
    /// The request addressed a channel this component does not own.
    OperationNotSupported(Operation, String),
    /// A write supplied a value that does not decode to the expected kind.
    ValueTypeMismatch,
}

impl CaptureError {
    /// True of the errors an engine launch can produce.
    pub open spec fn is_start_error(&self) -> bool {
        match *self {
            CaptureError::NoBackendAvailable => true,
            CaptureError::BackendStartupFailed => true,
            CaptureError::PortNotAllocated => true,
            CaptureError::OperationNotSupported(_, _) => false,
            CaptureError::ValueTypeMismatch => false,
        }
    }
}

impl Clone for CaptureError {
    /// A clone is the very same error, channel identity included.
    fn clone(&self) -> (r: Self)
        ensures
            r == *self,
    {
        match self {
            CaptureError::NoBackendAvailable => CaptureError::NoBackendAvailable,
            CaptureError::BackendStartupFailed => CaptureError::BackendStartupFailed,
            CaptureError::PortNotAllocated => CaptureError::PortNotAllocated,
            CaptureError::OperationNotSupported(op, id) => CaptureError::OperationNotSupported(
                *op,
                id.clone(),
            ),
            CaptureError::ValueTypeMismatch => CaptureError::ValueTypeMismatch,
        }
    }
}

impl PartialEq for CaptureError {
    fn eq(&self, other: &Self) -> bool {
        match (self, other) {
            (CaptureError::NoBackendAvailable, CaptureError::NoBackendAvailable) => true,
            (CaptureError::BackendStartupFailed, CaptureError::BackendStartupFailed) => true,
            (CaptureError::PortNotAllocated, CaptureError::PortNotAllocated) => true,
            (
                CaptureError::OperationNotSupported(op, id),
                CaptureError::OperationNotSupported(other_op, other_id),
            ) => *op == *other_op && *id == *other_id,
            (CaptureError::ValueTypeMismatch, CaptureError::ValueTypeMismatch) => true,
            _ => false,
        }
    }
}

impl vstd::std_specs::cmp::PartialEqSpecImpl for CaptureError {
    open spec fn obeys_eq_spec() -> bool {
        true
    }

    open spec fn eq_spec(&self, other: &Self) -> bool {
        match (*self, *other) {
            (CaptureError::NoBackendAvailable, CaptureError::NoBackendAvailable) => true,
            (CaptureError::BackendStartupFailed, CaptureError::BackendStartupFailed) => true,
            (CaptureError::PortNotAllocated, CaptureError::PortNotAllocated) => true,
            (
                CaptureError::OperationNotSupported(op, id),
                CaptureError::OperationNotSupported(other_op, other_id),
            ) => op == other_op && id@ == other_id@,
            (CaptureError::ValueTypeMismatch, CaptureError::ValueTypeMismatch) => true,
            _ => false,
        }
    }
}

} // verus!
