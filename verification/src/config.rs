//! Loading and unloading the configuration of the groups.

use vstd::prelude::*;
use crate::error::{cg_result, spec_cg_result, CGroupError};
use crate::text::has_nul;

verus! {

/// Reads the replies of the calls that load and unload a configuration.
pub struct Loader {}

impl Loader {
    /// Takes the status with which the subsystem loaded the configuration
    /// file at `pathname`. A path with a NUL character is refused before
    /// the status is looked at.
    pub fn load(pathname: &str, status: i32) -> (outcome: Result<(), CGroupError>)
        ensures
            outcome == (if pathname@.contains('\0') {
                Err(CGroupError::InteriorNul)
            } else {
                spec_cg_result(status)
            }),
    {
        if has_nul(pathname) {
            Err(CGroupError::InteriorNul)
        } else {
            cg_result(status)
        }
    }

    /// Takes the status with which the subsystem removed the groups that a
    /// configuration had made.
    pub fn unload(status: i32) -> (outcome: Result<(), CGroupError>)
        ensures
            outcome == spec_cg_result(status),
    {
        cg_result(status)
    }
}

} // verus!
