//! The start of all work with the subsystem: its initialization, and the
//! question where a controller is mounted.

use vstd::prelude::*;
use crate::error::{cg_result, spec_cg_result, CGroupError, C_GROUP_SUCCESS};
use crate::text::{c_str_text, has_nul, reads_as};

verus! {

/// Reads the replies of the two calls that come before every other.
pub struct CGroupInitializer;

impl CGroupInitializer {
    /// Takes the status of the initialization. It has to be no failure
    /// before a group or an enumeration is asked for; where the status says
    /// that nothing is mounted, the caller mounts and initializes again.
    pub fn init(status: i32) -> (outcome: Result<(), CGroupError>)
        ensures
            outcome == spec_cg_result(status),
    {
        cg_result(status)
    }

    /// Takes the reply to the question where a controller is mounted: the
    /// status, and the buffer with the C string of the path, which counts
    /// only with success. There is no answer for a name with a NUL
    /// character, nor where the status is not success.
    pub fn get_subsys_mount_point(ctrl_name: &str, status: i32, point: &[u8]) -> (path: Option<
        String,
    >)
        ensures
            path is Some <==> !ctrl_name@.contains('\0') && status == C_GROUP_SUCCESS,
            path matches Some(text) ==> reads_as(point@, text@),
    {
        if has_nul(ctrl_name) || status != C_GROUP_SUCCESS {
            None
        } else {
            Some(c_str_text(point))
        }
    }
}

} // verus!
