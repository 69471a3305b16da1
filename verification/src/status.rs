//! Status-to-error translation: every native engine entry point returns one
//! status code, and every other module routes failure through the types here.

use vstd::prelude::*;

verus! {

/// The status codes the native transform engine can return.
///
/// The engine reports these as small integers; `from_code` and `code` give
/// the exact correspondence used at the foreign boundary.
#[allow(non_camel_case_types)]
#[derive(Clone, Copy, Debug, PartialEq, Eq, Structural)]
pub enum cufftResult_t {
    CUFFT_SUCCESS,
    CUFFT_INVALID_PLAN,
    CUFFT_ALLOC_FAILED,
    CUFFT_INVALID_TYPE,
    CUFFT_INVALID_VALUE,
    CUFFT_INTERNAL_ERROR,
    CUFFT_EXEC_FAILED,
    CUFFT_SETUP_FAILED,
    CUFFT_INVALID_SIZE,
    CUFFT_UNALIGNED_DATA,
    CUFFT_INCOMPLETE_PARAMETER_LIST,
    CUFFT_INVALID_DEVICE,
    CUFFT_PARSE_ERROR,
    CUFFT_NO_WORKSPACE,
    CUFFT_NOT_IMPLEMENTED,
    CUFFT_LICENSE_ERROR,
    CUFFT_NOT_SUPPORTED,
}

/// A failed native call, carrying the original status code unchanged.
#[derive(Clone, Copy, Debug, PartialEq, Eq, Structural)]
pub struct CufftError(pub cufftResult_t);

impl cufftResult_t {
    /// The integer the engine uses for this status.
    pub open spec fn spec_code(self) -> u32 {
        match self {
            cufftResult_t::CUFFT_SUCCESS => 0,
            cufftResult_t::CUFFT_INVALID_PLAN => 1,
            cufftResult_t::CUFFT_ALLOC_FAILED => 2,
            cufftResult_t::CUFFT_INVALID_TYPE => 3,
            cufftResult_t::CUFFT_INVALID_VALUE => 4,
            cufftResult_t::CUFFT_INTERNAL_ERROR => 5,
            cufftResult_t::CUFFT_EXEC_FAILED => 6,
            cufftResult_t::CUFFT_SETUP_FAILED => 7,
            cufftResult_t::CUFFT_INVALID_SIZE => 8,
            cufftResult_t::CUFFT_UNALIGNED_DATA => 9,
            cufftResult_t::CUFFT_INCOMPLETE_PARAMETER_LIST => 10,
            cufftResult_t::CUFFT_INVALID_DEVICE => 11,
            cufftResult_t::CUFFT_PARSE_ERROR => 12,
            cufftResult_t::CUFFT_NO_WORKSPACE => 13,
            cufftResult_t::CUFFT_NOT_IMPLEMENTED => 14,
            cufftResult_t::CUFFT_LICENSE_ERROR => 15,
            cufftResult_t::CUFFT_NOT_SUPPORTED => 16,
        }
    }

    /// The status a given engine integer denotes, if any.
    pub open spec fn spec_from_code(code: u32) -> Option<cufftResult_t> {
        if code == 0 { Some(cufftResult_t::CUFFT_SUCCESS) }
        else if code == 1 { Some(cufftResult_t::CUFFT_INVALID_PLAN) }
        else if code == 2 { Some(cufftResult_t::CUFFT_ALLOC_FAILED) }
        else if code == 3 { Some(cufftResult_t::CUFFT_INVALID_TYPE) }
        else if code == 4 { Some(cufftResult_t::CUFFT_INVALID_VALUE) }
        else if code == 5 { Some(cufftResult_t::CUFFT_INTERNAL_ERROR) }
        else if code == 6 { Some(cufftResult_t::CUFFT_EXEC_FAILED) }
        else if code == 7 { Some(cufftResult_t::CUFFT_SETUP_FAILED) }
        else if code == 8 { Some(cufftResult_t::CUFFT_INVALID_SIZE) }
        else if code == 9 { Some(cufftResult_t::CUFFT_UNALIGNED_DATA) }
        else if code == 10 { Some(cufftResult_t::CUFFT_INCOMPLETE_PARAMETER_LIST) }
        else if code == 11 { Some(cufftResult_t::CUFFT_INVALID_DEVICE) }
        else if code == 12 { Some(cufftResult_t::CUFFT_PARSE_ERROR) }
        else if code == 13 { Some(cufftResult_t::CUFFT_NO_WORKSPACE) }
        else if code == 14 { Some(cufftResult_t::CUFFT_NOT_IMPLEMENTED) }
        else if code == 15 { Some(cufftResult_t::CUFFT_LICENSE_ERROR) }
        else if code == 16 { Some(cufftResult_t::CUFFT_NOT_SUPPORTED) }
        else { None }
    }

    /// Integer form of this status, as the engine defines it.
    pub fn code(self) -> (r: u32)
        ensures
            r == self.spec_code(),
    {
        match self {
            cufftResult_t::CUFFT_SUCCESS => 0,
            cufftResult_t::CUFFT_INVALID_PLAN => 1,
            cufftResult_t::CUFFT_ALLOC_FAILED => 2,
            cufftResult_t::CUFFT_INVALID_TYPE => 3,
            cufftResult_t::CUFFT_INVALID_VALUE => 4,
            cufftResult_t::CUFFT_INTERNAL_ERROR => 5,
            cufftResult_t::CUFFT_EXEC_FAILED => 6,
            cufftResult_t::CUFFT_SETUP_FAILED => 7,
            cufftResult_t::CUFFT_INVALID_SIZE => 8,
            cufftResult_t::CUFFT_UNALIGNED_DATA => 9,
            cufftResult_t::CUFFT_INCOMPLETE_PARAMETER_LIST => 10,
            cufftResult_t::CUFFT_INVALID_DEVICE => 11,
            cufftResult_t::CUFFT_PARSE_ERROR => 12,
            cufftResult_t::CUFFT_NO_WORKSPACE => 13,
            cufftResult_t::CUFFT_NOT_IMPLEMENTED => 14,
            cufftResult_t::CUFFT_LICENSE_ERROR => 15,
            cufftResult_t::CUFFT_NOT_SUPPORTED => 16,
        }
    }

    /// Translate a raw engine integer back into a status; unknown integers
    /// yield `None` so that the caller can never mistake them for success.
    pub fn from_code(code: u32) -> (r: Option<cufftResult_t>)
        ensures
            r == cufftResult_t::spec_from_code(code),
    {
        if code == 0 { Some(cufftResult_t::CUFFT_SUCCESS) }
        else if code == 1 { Some(cufftResult_t::CUFFT_INVALID_PLAN) }
        else if code == 2 { Some(cufftResult_t::CUFFT_ALLOC_FAILED) }
        else if code == 3 { Some(cufftResult_t::CUFFT_INVALID_TYPE) }
        else if code == 4 { Some(cufftResult_t::CUFFT_INVALID_VALUE) }
        else if code == 5 { Some(cufftResult_t::CUFFT_INTERNAL_ERROR) }
        else if code == 6 { Some(cufftResult_t::CUFFT_EXEC_FAILED) }
        else if code == 7 { Some(cufftResult_t::CUFFT_SETUP_FAILED) }
        else if code == 8 { Some(cufftResult_t::CUFFT_INVALID_SIZE) }
        else if code == 9 { Some(cufftResult_t::CUFFT_UNALIGNED_DATA) }
        else if code == 10 { Some(cufftResult_t::CUFFT_INCOMPLETE_PARAMETER_LIST) }
        else if code == 11 { Some(cufftResult_t::CUFFT_INVALID_DEVICE) }
        else if code == 12 { Some(cufftResult_t::CUFFT_PARSE_ERROR) }
        else if code == 13 { Some(cufftResult_t::CUFFT_NO_WORKSPACE) }
        else if code == 14 { Some(cufftResult_t::CUFFT_NOT_IMPLEMENTED) }
        else if code == 15 { Some(cufftResult_t::CUFFT_LICENSE_ERROR) }
        else if code == 16 { Some(cufftResult_t::CUFFT_NOT_SUPPORTED) }
        else { None }
    }

    /// Uniform success/failure shape: success exactly on `CUFFT_SUCCESS`,
    /// otherwise an error carrying this status.
    pub fn result(self) -> (r: Result<(), CufftError>)
        ensures
            r is Ok <==> self is CUFFT_SUCCESS,
            r matches Err(e) ==> e == CufftError(self),
    {
        match self {
            cufftResult_t::CUFFT_SUCCESS => Ok(()),
            _ => Err(CufftError(self)),
        }
    }
}

/// Structured errors of the plan lifecycle, one variant per failure category.
#[derive(Clone, Copy, Debug, PartialEq, Eq, Structural)]
pub enum FftError {
    /// Native handle allocation failed.
    CreationError(CufftError),
    /// The engine rejected the requested shape, or the shape itself is
    /// invalid, or the scratch-area sizing query failed.
    ConfigurationError(CufftError),
    /// Stream association was rejected.
    StreamBindingError(CufftError),
    /// Enqueueing the transform failed, or the plan is in no state to
    /// execute.
    ExecutionError(CufftError),
    /// The requested execution variant does not match the configured
    /// element-type pairing; no native call is issued.
    VariantMismatchError,
}

impl FftError {
    /// The text `describe` returns for each variant.
    pub open spec fn spec_describe(self) -> Seq<char> {
        match self {
            FftError::CreationError(_) => "plan creation failed"@,
            FftError::ConfigurationError(_) => "plan configuration failed"@,
            FftError::StreamBindingError(_) => "stream binding failed"@,
            FftError::ExecutionError(_) => "transform execution failed"@,
            FftError::VariantMismatchError => "execution variant does not match plan configuration"@,
        }
    }

    /// A human-readable name of the failure category.
    pub fn describe(&self) -> (r: &'static str)
        ensures
            r@ == self.spec_describe(),
    {
        match self {
            FftError::CreationError(_) => "plan creation failed",
            FftError::ConfigurationError(_) => "plan configuration failed",
            FftError::StreamBindingError(_) => "stream binding failed",
            FftError::ExecutionError(_) => "transform execution failed",
            FftError::VariantMismatchError => "execution variant does not match plan configuration",
        }
    }
}

} // verus!
