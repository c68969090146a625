//! The closed error taxonomy and the single-slot sticky error register.

use vstd::prelude::*;

use crate::constants;

verus! {

/// The closed set of error codes a context operation can record.
#[derive(Clone, Copy, Debug, PartialEq, Eq, Structural)]
pub enum WebGLError {
    InvalidEnum,
    InvalidValue,
    InvalidOperation,
    InvalidFramebufferOperation,
    OutOfMemory,
    ContextLost,
}

/// First-write-wins update of the sticky error register: a new error is
/// stored only while the register is empty.
pub open spec fn record(prev: Option<WebGLError>, e: WebGLError) -> Option<WebGLError> {
    match prev {
        None => Some(e),
        Some(_) => prev,
    }
}

/// The GL constant reported for each error code.
pub open spec fn spec_error_code(e: WebGLError) -> u32 {
    match e {
        WebGLError::InvalidEnum => constants::INVALID_ENUM,
        WebGLError::InvalidValue => constants::INVALID_VALUE,
        WebGLError::InvalidOperation => constants::INVALID_OPERATION,
        WebGLError::InvalidFramebufferOperation => constants::INVALID_FRAMEBUFFER_OPERATION,
        WebGLError::OutOfMemory => constants::OUT_OF_MEMORY,
        WebGLError::ContextLost => constants::CONTEXT_LOST_WEBGL,
    }
}

/// The GL constant reported for the register's content: its error's code,
/// or `NO_ERROR` while the register is empty.
pub open spec fn spec_register_code(slot: Option<WebGLError>) -> u32 {
    match slot {
        Some(e) => spec_error_code(e),
        None => constants::NO_ERROR,
    }
}

/// The register is sticky: of two errors recorded between two polls,
/// only the first is kept; a poll then reads that first error, and the
/// emptied register reads as no error until a new failure occurs.
pub proof fn lemma_register_keeps_first_error(e1: WebGLError, e2: WebGLError)
    ensures
        record(record(None, e1), e2) == Some(e1),
        spec_register_code(record(record(None, e1), e2)) == spec_error_code(e1),
        spec_register_code(None) == constants::NO_ERROR,
{
}

impl WebGLError {
    /// The GL constant for this error code.
    pub fn as_gl_constant(self) -> (r: u32)
        ensures
            r == spec_error_code(self),
    {
        match self {
            WebGLError::InvalidEnum => constants::INVALID_ENUM,
            WebGLError::InvalidValue => constants::INVALID_VALUE,
            WebGLError::InvalidOperation => constants::INVALID_OPERATION,
            WebGLError::InvalidFramebufferOperation => constants::INVALID_FRAMEBUFFER_OPERATION,
            WebGLError::OutOfMemory => constants::OUT_OF_MEMORY,
            WebGLError::ContextLost => constants::CONTEXT_LOST_WEBGL,
        }
    }
}

/// A validation outcome: `Ok` or one error of the closed taxonomy.
pub type WebGLResult<T> = Result<T, WebGLError>;

} // verus!
