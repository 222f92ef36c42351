//! Classification of GPU error codes.
//!
//! After a batch of GPU calls, the caller polls the command interface for a
//! pending error code and hands it to the functions here: `gl_call_ok`
//! decides whether the batch counts as validated, and `gl_error_name` maps
//! the code to the name printed in diagnostics.

use vstd::prelude::*;

verus! {

/// Error code meaning "no error pending".
pub const GL_NO_ERROR: u32 = 0;
/// Error code for an unacceptable enumerated argument.
pub const GL_INVALID_ENUM: u32 = 0x0500;
/// Error code for an out-of-range numeric argument.
pub const GL_INVALID_VALUE: u32 = 0x0501;
/// Error code for an operation not allowed in the current state.
pub const GL_INVALID_OPERATION: u32 = 0x0502;
/// Error code for memory exhaustion.
pub const GL_OUT_OF_MEMORY: u32 = 0x0505;
/// Error code for an operation on an incomplete framebuffer.
pub const GL_INVALID_FRAMEBUFFER_OPERATION: u32 = 0x0506;

/// A batch of GPU calls is validated exactly when the polled error code is
/// `GL_NO_ERROR`.
pub fn gl_call_ok(error_code: u32) -> (ok: bool)
    ensures
        ok <==> error_code == GL_NO_ERROR,
{
    error_code == GL_NO_ERROR
}

/// The diagnostic name for a GPU error code.
pub open spec fn spec_gl_error_name(error_code: u32) -> Seq<char> {
    if error_code == GL_INVALID_ENUM {
        "GL_INVALID_ENUM"@
    } else if error_code == GL_INVALID_VALUE {
        "GL_INVALID_VALUE"@
    } else if error_code == GL_INVALID_OPERATION {
        "GL_INVALID_OPERATION"@
    } else if error_code == GL_INVALID_FRAMEBUFFER_OPERATION {
        "INVALID_FRAMEBUFFER_OPERATION"@
    } else if error_code == GL_OUT_OF_MEMORY {
        "OUT_OF_MEMORY"@
    } else {
        "UNKNOWN"@
    }
}

/// Maps a GPU error code to the name used in printed diagnostics.
pub fn gl_error_name(error_code: u32) -> (name: &'static str)
    ensures
        name@ == spec_gl_error_name(error_code),
{
    if error_code == GL_INVALID_ENUM {
        "GL_INVALID_ENUM"
    } else if error_code == GL_INVALID_VALUE {
        "GL_INVALID_VALUE"
    } else if error_code == GL_INVALID_OPERATION {
        "GL_INVALID_OPERATION"
    } else if error_code == GL_INVALID_FRAMEBUFFER_OPERATION {
        "INVALID_FRAMEBUFFER_OPERATION"
    } else if error_code == GL_OUT_OF_MEMORY {
        "OUT_OF_MEMORY"
    } else {
        "UNKNOWN"
    }
}

} // verus!
