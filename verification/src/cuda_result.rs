//! The structured error taxonomy of the core, and the mapping from raw
//! native status codes into it.
//!
//! Every native call site checks the returned status immediately; a failure
//! propagates to the caller as one of these errors and none is silently
//! swallowed. One error kind exists per native status class that the core
//! actually surfaces; `NativeResult` carries any other recognized code, and
//! `Unknown` stands for a code outside the recognized enumeration.

use vstd::prelude::*;

use crate::cuda_api::CUresult;

verus! {

/// The error taxonomy of the core.
#[derive(Clone, Copy, Debug, PartialEq, Eq, Structural)]
pub enum CUError {
    /// A value passed to a native call was outside the acceptable range.
    InvalidValue,
    /// The driver could not allocate enough device memory.
    OutOfMemory,
    /// The driver has not been initialized.
    NotInitialized,
    /// The driver is shutting down.
    Deinitialized,
    /// No compute device is present.
    NoDevice,
    /// A device ordinal was outside the range of present devices.
    InvalidDevice,
    /// The reported driver version, as `(major, minor)`, is below the
    /// minimum this core supports.
    UnsupportedVersion(i32, i32),
    /// A recognized native status code without a dedicated mapping.
    NativeResult(i32),
    /// A native status code outside the recognized enumeration.
    Unknown,
    /// The native driver library could not be loaded.
    DriverUnavailable,
    /// The native init entry point returned this non-success status code.
    InitFailed(i32),
    /// Creating a just-in-time link session failed with this status code.
    LinkCreateFailed(i32),
    /// Completing a just-in-time link failed with this status code.
    LinkCompleteFailed(i32),
}

/// What `CUresult::check` returns for each recognized status code: success
/// becomes `Ok`, the dedicated status classes their own error kinds, and
/// every other recognized code is carried as `NativeResult` of its encoding.
pub open spec fn check_spec(r: CUresult) -> Result<(), CUError> {
    match r {
        CUresult::CUDA_SUCCESS => Ok(()),
        CUresult::CUDA_ERROR_INVALID_VALUE => Err(CUError::InvalidValue),
        CUresult::CUDA_ERROR_OUT_OF_MEMORY => Err(CUError::OutOfMemory),
        CUresult::CUDA_ERROR_NOT_INITIALIZED => Err(CUError::NotInitialized),
        CUresult::CUDA_ERROR_DEINITIALIZED => Err(CUError::Deinitialized),
        CUresult::CUDA_ERROR_NO_DEVICE => Err(CUError::NoDevice),
        CUresult::CUDA_ERROR_INVALID_DEVICE => Err(CUError::InvalidDevice),
        _ => Err(CUError::NativeResult(r.code_spec())),
    }
}

/// The verdict on a raw native status value: `Ok` exactly for the success
/// code, the taxonomy error for every other recognized code, and `Unknown`
/// for a value outside the recognized enumeration.
pub open spec fn status_result(code: i32) -> Result<(), CUError> {
    match CUresult::from_code_spec(code) {
        Some(r) => check_spec(r),
        None => Err(CUError::Unknown),
    }
}

/// Map a raw native status value into the error taxonomy.
///
/// This is the one path by which observed status codes enter the core: it
/// returns `Ok` exactly when the value is the success code.
pub fn status_to_result(code: i32) -> (res: Result<(), CUError>)
    ensures
        res == status_result(code),
        res is Ok <==> code == 0,
{
    match CUresult::from_code(code) {
        Some(r) => r.check(),
        None => Err(CUError::Unknown),
    }
}

} // verus!
