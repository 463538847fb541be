//! The five enumerations of the subsystem, each a cursor with the
//! parameters of its `begin`.
//!
//! Every one of them is used in the same way. `from` makes the enumeration
//! out of the reply of `begin`; where `begin` failed it gives the error and
//! no enumeration. `next` pulls: it gives the next item, after which the
//! native `next` is due and its reply goes to `cg_next`, or it gives the
//! end, with the handle on which the native `end` is due. `cg_end` gives an
//! enumeration up early; it too names the handle on which `end` is due, and
//! names it only once.

use vstd::prelude::*;
use crate::cursor::{Cursor, CursorState, CursorStep};
use crate::error::{spec_is_failure, CGroupError, C_GROUP_SUCCESS};
use crate::records::{CGroupControllerData, CGroupFileInfo, CGroupMountPoint, CGroupStat};
use crate::text::check_text;

verus! {

/// What stands in the way of an enumeration with two texts as parameters
/// and this status of `begin`: a NUL character in a text comes first, then
/// a failing status.
pub open spec fn spec_begin_error(first: Seq<char>, second: Seq<char>, status: i32) -> Option<
    CGroupError,
> {
    if first.contains('\0') || second.contains('\0') {
        Some(CGroupError::InteriorNul)
    } else if spec_is_failure(status) {
        Some(CGroupError::Status { code: status })
    } else {
        None
    }
}

/// Walks the tree of groups below a path. An item is the level of the base
/// together with a node.
pub struct CGroupWalkIterator {
    ctrl_name: String,
    base_path: String,
    depth: i32,
    cursor: Cursor<(i32, CGroupFileInfo)>,
}

impl CGroupWalkIterator {
    /// Where the cursor stands.
    pub closed spec fn state(&self) -> CursorState<(i32, CGroupFileInfo)> {
        self.cursor@
    }

    /// The controller whose tree is walked.
    pub closed spec fn spec_ctrl_name(&self) -> Seq<char> {
        self.ctrl_name@
    }

    /// The path at which the walk starts.
    pub closed spec fn spec_base_path(&self) -> Seq<char> {
        self.base_path@
    }

    /// How deep the walk goes.
    pub closed spec fn spec_depth(&self) -> i32 {
        self.depth
    }

    /// An enumeration on which nothing was begun. A text with a NUL
    /// character is refused.
    pub fn new(ctrl_name: &str, base_path: &str, depth: i32) -> (made: Result<Self, CGroupError>)
        ensures
            made is Err <==> ctrl_name@.contains('\0') || base_path@.contains('\0'),
            made matches Err(error) ==> error == CGroupError::InteriorNul,
            made matches Ok(walk) ==> ({
                &&& walk.state() is Created
                &&& walk.spec_ctrl_name() == ctrl_name@
                &&& walk.spec_base_path() == base_path@
                &&& walk.spec_depth() == depth
            }),
    {
        match check_text(ctrl_name) {
            Err(error) => {
                return Err(error);
            },
            Ok(_) => {},
        }
        match check_text(base_path) {
            Err(error) => {
                return Err(error);
            },
            Ok(_) => {},
        }
        Ok(
            CGroupWalkIterator {
                ctrl_name: String::from_str(ctrl_name),
                base_path: String::from_str(base_path),
                depth,
                cursor: Cursor::new(),
            },
        )
    }

    /// The enumeration that the reply of `begin` gives.
    pub fn from(
        ctrl_name: &str,
        base_path: &str,
        depth: i32,
        handle: usize,
        status: i32,
        base_level: i32,
        info: CGroupFileInfo,
    ) -> (made: Result<Self, CGroupError>)
        ensures
            made is Err <==> spec_begin_error(ctrl_name@, base_path@, status) is Some,
            made matches Err(error) ==> Some(error) == spec_begin_error(
                ctrl_name@,
                base_path@,
                status,
            ),
            made matches Ok(walk) ==> ({
                &&& walk.state() == CursorState::<(i32, CGroupFileInfo)>::Created.after_begin(
                    handle,
                    status,
                    (base_level, info),
                )
                &&& walk.spec_ctrl_name() == ctrl_name@
                &&& walk.spec_base_path() == base_path@
                &&& walk.spec_depth() == depth
            }),
    {
        let mut walk = match Self::new(ctrl_name, base_path, depth) {
            Ok(walk) => walk,
            Err(error) => {
                return Err(error);
            },
        };
        match walk.cg_begin(handle, status, base_level, info) {
            Ok(_) => Ok(walk),
            Err(error) => Err(error),
        }
    }

    /// The controller whose tree is walked.
    pub fn ctrl_name(&self) -> (text: &str)
        ensures
            text@ == self.spec_ctrl_name(),
    {
        self.ctrl_name.as_str()
    }

    /// The path at which the walk starts.
    pub fn base_path(&self) -> (text: &str)
        ensures
            text@ == self.spec_base_path(),
    {
        self.base_path.as_str()
    }

    /// How deep the walk goes.
    pub fn depth(&self) -> (depth: i32)
        ensures
            depth == self.spec_depth(),
    {
        self.depth
    }

    /// Takes the reply of `begin`.
    pub fn cg_begin(
        &mut self,
        handle: usize,
        status: i32,
        base_level: i32,
        info: CGroupFileInfo,
    ) -> (outcome: Result<bool, CGroupError>)
        ensures
            final(self).state() == old(self).state().after_begin(
                handle,
                status,
                (base_level, info),
            ),
            outcome == old(self).state().begin_outcome(status),
            final(self).spec_ctrl_name() == old(self).spec_ctrl_name(),
            final(self).spec_base_path() == old(self).spec_base_path(),
            final(self).spec_depth() == old(self).spec_depth(),
    {
        self.cursor.cg_begin(handle, status, (base_level, info))
    }

    /// Takes the reply of `next`.
    pub fn cg_next(&mut self, status: i32, base_level: i32, info: CGroupFileInfo) -> (waiting: bool)
        ensures
            final(self).state() == old(self).state().after_next(status, (base_level, info)),
            waiting == (old(self).state() is Advancing && status == C_GROUP_SUCCESS),
            final(self).spec_ctrl_name() == old(self).spec_ctrl_name(),
            final(self).spec_base_path() == old(self).spec_base_path(),
            final(self).spec_depth() == old(self).spec_depth(),
    {
        self.cursor.cg_next(status, (base_level, info))
    }

    /// Gives the enumeration up.
    pub fn cg_end(&mut self) -> (teardown: Option<usize>)
        ensures
            final(self).state() == old(self).state().after_end(),
            teardown == old(self).state().open_handle(),
            final(self).spec_ctrl_name() == old(self).spec_ctrl_name(),
            final(self).spec_base_path() == old(self).spec_base_path(),
            final(self).spec_depth() == old(self).spec_depth(),
    {
        self.cursor.cg_end()
    }

    /// Asks to set the flags of the walk. They can be set while the native
    /// context is open: then the handle comes back with the flags, for the
    /// native call; before `begin` and after `end` nothing comes back.
    pub fn set_flags(&self, flags: i32) -> (call: Option<(usize, i32)>)
        ensures
            call == (match self.state().open_handle() {
                Some(handle) => Some((handle, flags)),
                None => None,
            }),
    {
        match self.cursor.open_handle() {
            Some(handle) => Some((handle, flags)),
            None => None,
        }
    }

    /// Pulls the next item.
    pub fn next(&mut self) -> (step: CursorStep<(i32, CGroupFileInfo)>)
        ensures
            final(self).state() == old(self).state().after_pull(),
            step == old(self).state().pulled(),
            final(self).spec_ctrl_name() == old(self).spec_ctrl_name(),
            final(self).spec_base_path() == old(self).spec_base_path(),
            final(self).spec_depth() == old(self).spec_depth(),
    {
        self.cursor.next()
    }

    /// The failure that ended the walk, if one did.
    pub fn terminal_error(&self) -> (error: Option<CGroupError>)
        ensures
            error == self.state().terminal_error(),
    {
        self.cursor.terminal_error()
    }
}

/// Reads the statistics of a controller at a path. An item is one statistic.
pub struct CGroupStatsIterator {
    ctrl_name: String,
    path_name: String,
    cursor: Cursor<CGroupStat>,
}

impl CGroupStatsIterator {
    /// Where the cursor stands.
    pub closed spec fn state(&self) -> CursorState<CGroupStat> {
        self.cursor@
    }

    /// The controller whose statistics are read.
    pub closed spec fn spec_ctrl_name(&self) -> Seq<char> {
        self.ctrl_name@
    }

    /// The path of the group, below the mount point of the controller.
    pub closed spec fn spec_path_name(&self) -> Seq<char> {
        self.path_name@
    }

    /// An enumeration on which nothing was begun. A text with a NUL
    /// character is refused.
    pub fn new(ctrl_name: &str, path_name: &str) -> (made: Result<Self, CGroupError>)
        ensures
            made is Err <==> ctrl_name@.contains('\0') || path_name@.contains('\0'),
            made matches Err(error) ==> error == CGroupError::InteriorNul,
            made matches Ok(made) ==> ({
                &&& made.state() is Created
                &&& made.spec_ctrl_name() == ctrl_name@
                &&& made.spec_path_name() == path_name@
            }),
    {
        match check_text(ctrl_name) {
            Err(error) => {
                return Err(error);
            },
            Ok(_) => {},
        }
        match check_text(path_name) {
            Err(error) => {
                return Err(error);
            },
            Ok(_) => {},
        }
        Ok(
            CGroupStatsIterator {
                ctrl_name: String::from_str(ctrl_name),
                path_name: String::from_str(path_name),
                cursor: Cursor::new(),
            },
        )
    }

    /// The enumeration that the reply of `begin` gives.
    pub fn from(
        ctrl_name: &str,
        path_name: &str,
        handle: usize,
        status: i32,
        stat: CGroupStat,
    ) -> (made: Result<Self, CGroupError>)
        ensures
            made is Err <==> spec_begin_error(ctrl_name@, path_name@, status) is Some,
            made matches Err(error) ==> Some(error) == spec_begin_error(
                ctrl_name@,
                path_name@,
                status,
            ),
            made matches Ok(made) ==> ({
                &&& made.state() == CursorState::<CGroupStat>::Created.after_begin(
                    handle,
                    status,
                    stat,
                )
                &&& made.spec_ctrl_name() == ctrl_name@
                &&& made.spec_path_name() == path_name@
            }),
    {
        let mut made = match Self::new(ctrl_name, path_name) {
            Ok(made) => made,
            Err(error) => {
                return Err(error);
            },
        };
        match made.cg_begin(handle, status, stat) {
            Ok(_) => Ok(made),
            Err(error) => Err(error),
        }
    }

    /// The controller whose statistics are read.
    pub fn ctrl_name(&self) -> (text: &str)
        ensures
            text@ == self.spec_ctrl_name(),
    {
        self.ctrl_name.as_str()
    }

    /// The path of the group, below the mount point of the controller.
    pub fn path_name(&self) -> (text: &str)
        ensures
            text@ == self.spec_path_name(),
    {
        self.path_name.as_str()
    }

    /// Takes the reply of `begin`.
    pub fn cg_begin(&mut self, handle: usize, status: i32, stat: CGroupStat) -> (outcome: Result<
        bool,
        CGroupError,
    >)
        ensures
            final(self).state() == old(self).state().after_begin(handle, status, stat),
            outcome == old(self).state().begin_outcome(status),
            final(self).spec_ctrl_name() == old(self).spec_ctrl_name(),
            final(self).spec_path_name() == old(self).spec_path_name(),
    {
        self.cursor.cg_begin(handle, status, stat)
    }

    /// Takes the reply of `next`.
    pub fn cg_next(&mut self, status: i32, stat: CGroupStat) -> (waiting: bool)
        ensures
            final(self).state() == old(self).state().after_next(status, stat),
            waiting == (old(self).state() is Advancing && status == C_GROUP_SUCCESS),
            final(self).spec_ctrl_name() == old(self).spec_ctrl_name(),
            final(self).spec_path_name() == old(self).spec_path_name(),
    {
        self.cursor.cg_next(status, stat)
    }

    /// Gives the enumeration up.
    pub fn cg_end(&mut self) -> (teardown: Option<usize>)
        ensures
            final(self).state() == old(self).state().after_end(),
            teardown == old(self).state().open_handle(),
            final(self).spec_ctrl_name() == old(self).spec_ctrl_name(),
            final(self).spec_path_name() == old(self).spec_path_name(),
    {
        self.cursor.cg_end()
    }

    /// Pulls the next item.
    pub fn next(&mut self) -> (step: CursorStep<CGroupStat>)
        ensures
            final(self).state() == old(self).state().after_pull(),
            step == old(self).state().pulled(),
            final(self).spec_ctrl_name() == old(self).spec_ctrl_name(),
            final(self).spec_path_name() == old(self).spec_path_name(),
    {
        self.cursor.next()
    }

    /// The failure that ended the enumeration, if one did.
    pub fn terminal_error(&self) -> (error: Option<CGroupError>)
        ensures
            error == self.state().terminal_error(),
    {
        self.cursor.terminal_error()
    }
}

/// Lists the tasks of a group. An item is the id of a process.
pub struct CGroupTaskIterator {
    cg_name: String,
    ctrl_name: String,
    cursor: Cursor<i32>,
}

impl CGroupTaskIterator {
    /// Where the cursor stands.
    pub closed spec fn state(&self) -> CursorState<i32> {
        self.cursor@
    }

    /// The group whose tasks are listed.
    pub closed spec fn spec_cg_name(&self) -> Seq<char> {
        self.cg_name@
    }

    /// The controller under which the group is looked up.
    pub closed spec fn spec_ctrl_name(&self) -> Seq<char> {
        self.ctrl_name@
    }

    /// An enumeration on which nothing was begun. A text with a NUL
    /// character is refused.
    pub fn new(cg_name: &str, ctrl_name: &str) -> (made: Result<Self, CGroupError>)
        ensures
            made is Err <==> cg_name@.contains('\0') || ctrl_name@.contains('\0'),
            made matches Err(error) ==> error == CGroupError::InteriorNul,
            made matches Ok(made) ==> ({
                &&& made.state() is Created
                &&& made.spec_cg_name() == cg_name@
                &&& made.spec_ctrl_name() == ctrl_name@
            }),
    {
        match check_text(cg_name) {
            Err(error) => {
                return Err(error);
            },
            Ok(_) => {},
        }
        match check_text(ctrl_name) {
            Err(error) => {
                return Err(error);
            },
            Ok(_) => {},
        }
        Ok(
            CGroupTaskIterator {
                cg_name: String::from_str(cg_name),
                ctrl_name: String::from_str(ctrl_name),
                cursor: Cursor::new(),
            },
        )
    }

    /// The enumeration that the reply of `begin` gives.
    pub fn from(cg_name: &str, ctrl_name: &str, handle: usize, status: i32, pid: i32) -> (made:
        Result<Self, CGroupError>)
        ensures
            made is Err <==> spec_begin_error(cg_name@, ctrl_name@, status) is Some,
            made matches Err(error) ==> Some(error) == spec_begin_error(
                cg_name@,
                ctrl_name@,
                status,
            ),
            made matches Ok(made) ==> ({
                &&& made.state() == CursorState::<i32>::Created.after_begin(
                    handle,
                    status,
                    pid,
                )
                &&& made.spec_cg_name() == cg_name@
                &&& made.spec_ctrl_name() == ctrl_name@
            }),
    {
        let mut made = match Self::new(cg_name, ctrl_name) {
            Ok(made) => made,
            Err(error) => {
                return Err(error);
            },
        };
        match made.cg_begin(handle, status, pid) {
            Ok(_) => Ok(made),
            Err(error) => Err(error),
        }
    }

    /// The group whose tasks are listed.
    pub fn cg_name(&self) -> (text: &str)
        ensures
            text@ == self.spec_cg_name(),
    {
        self.cg_name.as_str()
    }

    /// The controller under which the group is looked up.
    pub fn ctrl_name(&self) -> (text: &str)
        ensures
            text@ == self.spec_ctrl_name(),
    {
        self.ctrl_name.as_str()
    }

    /// Takes the reply of `begin`.
    pub fn cg_begin(&mut self, handle: usize, status: i32, pid: i32) -> (outcome: Result<
        bool,
        CGroupError,
    >)
        ensures
            final(self).state() == old(self).state().after_begin(handle, status, pid),
            outcome == old(self).state().begin_outcome(status),
            final(self).spec_cg_name() == old(self).spec_cg_name(),
            final(self).spec_ctrl_name() == old(self).spec_ctrl_name(),
    {
        self.cursor.cg_begin(handle, status, pid)
    }

    /// Takes the reply of `next`.
    pub fn cg_next(&mut self, status: i32, pid: i32) -> (waiting: bool)
        ensures
            final(self).state() == old(self).state().after_next(status, pid),
            waiting == (old(self).state() is Advancing && status == C_GROUP_SUCCESS),
            final(self).spec_cg_name() == old(self).spec_cg_name(),
            final(self).spec_ctrl_name() == old(self).spec_ctrl_name(),
    {
        self.cursor.cg_next(status, pid)
    }

    /// Gives the enumeration up.
    pub fn cg_end(&mut self) -> (teardown: Option<usize>)
        ensures
            final(self).state() == old(self).state().after_end(),
            teardown == old(self).state().open_handle(),
            final(self).spec_cg_name() == old(self).spec_cg_name(),
            final(self).spec_ctrl_name() == old(self).spec_ctrl_name(),
    {
        self.cursor.cg_end()
    }

    /// Pulls the next item.
    pub fn next(&mut self) -> (step: CursorStep<i32>)
        ensures
            final(self).state() == old(self).state().after_pull(),
            step == old(self).state().pulled(),
            final(self).spec_cg_name() == old(self).spec_cg_name(),
            final(self).spec_ctrl_name() == old(self).spec_ctrl_name(),
    {
        self.cursor.next()
    }

    /// The failure that ended the enumeration, if one did.
    pub fn terminal_error(&self) -> (error: Option<CGroupError>)
        ensures
            error == self.state().terminal_error(),
    {
        self.cursor.terminal_error()
    }
}

/// Lists the controllers that are mounted. An item is a controller with its
/// mount point.
pub struct CGroupControllerIterator {
    cursor: Cursor<CGroupMountPoint>,
}

impl CGroupControllerIterator {
    /// Where the cursor stands.
    pub closed spec fn state(&self) -> CursorState<CGroupMountPoint> {
        self.cursor@
    }

    /// An enumeration on which nothing was begun.
    pub fn new() -> (made: Self)
        ensures
            made.state() is Created,
    {
        CGroupControllerIterator { cursor: Cursor::new() }
    }

    /// The enumeration that the reply of `begin` gives; a failing status is
    /// the error, and then there is no enumeration.
    pub fn from(
        handle: usize,
        status: i32,
        ctrl: CGroupMountPoint,
    ) -> (made: Result<Self, CGroupError>)
        ensures
            made is Err <==> spec_is_failure(status),
            made matches Err(error) ==> error == (CGroupError::Status { code: status }),
            made matches Ok(made) ==> made.state() == CursorState::<
                CGroupMountPoint,
            >::Created.after_begin(handle, status, ctrl),
    {
        let mut made = Self::new();
        match made.cg_begin(handle, status, ctrl) {
            Ok(_) => Ok(made),
            Err(error) => Err(error),
        }
    }

    /// Takes the reply of `begin`.
    pub fn cg_begin(&mut self, handle: usize, status: i32, ctrl: CGroupMountPoint) -> (outcome:
        Result<bool, CGroupError>)
        ensures
            final(self).state() == old(self).state().after_begin(handle, status, ctrl),
            outcome == old(self).state().begin_outcome(status),
    {
        self.cursor.cg_begin(handle, status, ctrl)
    }

    /// Takes the reply of `next`.
    pub fn cg_next(&mut self, status: i32, ctrl: CGroupMountPoint) -> (waiting: bool)
        ensures
            final(self).state() == old(self).state().after_next(status, ctrl),
            waiting == (old(self).state() is Advancing && status == C_GROUP_SUCCESS),
    {
        self.cursor.cg_next(status, ctrl)
    }

    /// Gives the enumeration up.
    pub fn cg_end(&mut self) -> (teardown: Option<usize>)
        ensures
            final(self).state() == old(self).state().after_end(),
            teardown == old(self).state().open_handle(),
    {
        self.cursor.cg_end()
    }

    /// Pulls the next item.
    pub fn next(&mut self) -> (step: CursorStep<CGroupMountPoint>)
        ensures
            final(self).state() == old(self).state().after_pull(),
            step == old(self).state().pulled(),
    {
        self.cursor.next()
    }

    /// The failure that ended the enumeration, if one did.
    pub fn terminal_error(&self) -> (error: Option<CGroupError>)
        ensures
            error == self.state().terminal_error(),
    {
        self.cursor.terminal_error()
    }
}

/// Lists all controllers that the registry of the system knows. An item is one
/// entry of it.
pub struct CGroupAllControllerIterator {
    cursor: Cursor<CGroupControllerData>,
}

impl CGroupAllControllerIterator {
    /// Where the cursor stands.
    pub closed spec fn state(&self) -> CursorState<CGroupControllerData> {
        self.cursor@
    }

    /// An enumeration on which nothing was begun.
    pub fn new() -> (made: Self)
        ensures
            made.state() is Created,
    {
        CGroupAllControllerIterator { cursor: Cursor::new() }
    }

    /// The enumeration that the reply of `begin` gives; a failing status is
    /// the error, and then there is no enumeration.
    pub fn from(
        handle: usize,
        status: i32,
        ctrl: CGroupControllerData,
    ) -> (made: Result<Self, CGroupError>)
        ensures
            made is Err <==> spec_is_failure(status),
            made matches Err(error) ==> error == (CGroupError::Status { code: status }),
            made matches Ok(made) ==> made.state() == CursorState::<
                CGroupControllerData,
            >::Created.after_begin(handle, status, ctrl),
    {
        let mut made = Self::new();
        match made.cg_begin(handle, status, ctrl) {
            Ok(_) => Ok(made),
            Err(error) => Err(error),
        }
    }

    /// Takes the reply of `begin`.
    pub fn cg_begin(&mut self, handle: usize, status: i32, ctrl: CGroupControllerData) -> (outcome:
        Result<bool, CGroupError>)
        ensures
            final(self).state() == old(self).state().after_begin(handle, status, ctrl),
            outcome == old(self).state().begin_outcome(status),
    {
        self.cursor.cg_begin(handle, status, ctrl)
    }

    /// Takes the reply of `next`.
    pub fn cg_next(&mut self, status: i32, ctrl: CGroupControllerData) -> (waiting: bool)
        ensures
            final(self).state() == old(self).state().after_next(status, ctrl),
            waiting == (old(self).state() is Advancing && status == C_GROUP_SUCCESS),
    {
        self.cursor.cg_next(status, ctrl)
    }

    /// Gives the enumeration up.
    pub fn cg_end(&mut self) -> (teardown: Option<usize>)
        ensures
            final(self).state() == old(self).state().after_end(),
            teardown == old(self).state().open_handle(),
    {
        self.cursor.cg_end()
    }

    /// Pulls the next item.
    pub fn next(&mut self) -> (step: CursorStep<CGroupControllerData>)
        ensures
            final(self).state() == old(self).state().after_pull(),
            step == old(self).state().pulled(),
    {
        self.cursor.next()
    }

    /// The failure that ended the enumeration, if one did.
    pub fn terminal_error(&self) -> (error: Option<CGroupError>)
        ensures
            error == self.state().terminal_error(),
    {
        self.cursor.terminal_error()
    }
}

} // verus!
