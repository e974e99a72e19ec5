//! How a failure of the backend is shown to the user.

use crate::capture::{BackendErrorKind, BackendErrorView, CaptureBackendError};
use crate::state::{CaptureError, CaptureErrorView, ErrorCode};
use vstd::prelude::*;

verus! {

/// The code under which each kind of backend failure is shown: every kind
/// has the code of its own name.
pub open spec fn code_for(kind: BackendErrorKind) -> ErrorCode {
    match kind {
        BackendErrorKind::PermissionDenied => ErrorCode::PermissionDenied,
        BackendErrorKind::PortalError => ErrorCode::PortalError,
        BackendErrorKind::NoSourceAvailable => ErrorCode::NoSourceAvailable,
        BackendErrorKind::NotSupported => ErrorCode::NotSupported,
        BackendErrorKind::Internal => ErrorCode::Internal,
    }
}

/// The kinds of backend failure stay apart when they are shown: two failures
/// are shown under the same code only if they are of the same kind. No
/// backend failure is shown as an invalid configuration or as unknown.
pub proof fn lemma_codes_keep_kinds_apart(a: BackendErrorKind, b: BackendErrorKind)
    ensures
        code_for(a) == code_for(b) <==> a == b,
        code_for(a) != ErrorCode::InvalidConfig,
        code_for(a) != ErrorCode::Unknown,
{
}

/// The error shown for a backend failure: its code, and the failure's own
/// message.
pub open spec fn shown_error(e: BackendErrorView) -> CaptureErrorView {
    CaptureErrorView { code: code_for(e.kind), message: e.message }
}

/// Turns a backend failure into the error shown to the user.
pub fn backend_error_to_capture_error(err: &CaptureBackendError) -> (shown: CaptureError)
    ensures
        shown@ == shown_error(err@),
{
    match err {
        CaptureBackendError::PermissionDenied(msg) => CaptureError {
            code: ErrorCode::PermissionDenied,
            message: msg.clone(),
        },
        CaptureBackendError::PortalError(msg) => CaptureError {
            code: ErrorCode::PortalError,
            message: msg.clone(),
        },
        CaptureBackendError::NoSourceAvailable(msg) => CaptureError {
            code: ErrorCode::NoSourceAvailable,
            message: msg.clone(),
        },
        CaptureBackendError::NotSupported(msg) => CaptureError {
            code: ErrorCode::NotSupported,
            message: msg.clone(),
        },
        CaptureBackendError::Internal(msg) => CaptureError {
            code: ErrorCode::Internal,
            message: msg.clone(),
        },
    }
}

} // verus!
