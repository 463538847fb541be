//! Groups and the controllers attached to them: who owns which native
//! handle, and until when it may be used.
//!
//! A group owns one native handle. It is released once, by `free`, and from
//! then on the group names no handle any more. The controllers of a group
//! are borrowed from it: the group keeps the set of controller handles that
//! it has handed out, and `free_controllers`, `free` and a copy into the
//! group empty that set, after which no controller obtained before passes
//! for valid. The native calls themselves are made by the owner of these
//! values, on the handles that `handle` gives, and their replies come in
//! here as arguments.

use vstd::prelude::*;
use crate::error::{
    cg_result, spec_cg_result, CGroupError, C_EC_CONTROLLER_CREATE_FAILED,
    C_EC_GROUP_NOT_CREATED, C_GROUP_SUCCESS,
};
use crate::text::{c_str_text, has_nul, reads_as};

verus! {

/// A controller attached to a group. It lives in its group and is valid
/// only as long as the group still counts its handle among its own.
#[derive(Debug)]
pub struct CGroupControllerBuilder {
    name: String,
    c_groups: usize,
    c_groups_ctrl: usize,
}

/// A group, named by its path in the hierarchy.
#[derive(Debug)]
pub struct CGroupBuilder<'a> {
    name: &'a str,
    c_groups: usize,
    controllers: Vec<usize>,
}

/// Tells whether a handle is in a list.
fn holds(list: &Vec<usize>, handle: usize) -> (found: bool)
    ensures
        found == list@.contains(handle),
{
    let mut i: usize = 0;
    while i < list.len()
        invariant
            i <= list@.len(),
            forall|j: int| 0 <= j < i ==> list@[j] != handle,
        decreases list@.len() - i,
    {
        if list[i] == handle {
            return true;
        }
        i += 1;
    }
    false
}

/// What a status means for an operation on a handle: nothing can be done on
/// a null handle; else the status decides.
pub open spec fn spec_handle_result(null: bool, status: i32) -> Result<(), CGroupError> {
    if null {
        Err(CGroupError::OutOfTurn)
    } else {
        spec_cg_result(status)
    }
}

/// The same for an operation that names an attribute: a name with a NUL
/// character is refused before the status is looked at.
pub open spec fn spec_named_result(null: bool, name: Seq<char>, status: i32) -> Result<
    (),
    CGroupError,
> {
    if null {
        Err(CGroupError::OutOfTurn)
    } else if name.contains('\0') {
        Err(CGroupError::InteriorNul)
    } else {
        spec_cg_result(status)
    }
}

/// What the reply to a request for a controller makes of it.
pub open spec fn spec_controller_error(null: bool, name: Seq<char>, reply: usize) -> Option<
    CGroupError,
> {
    if null {
        Some(CGroupError::OutOfTurn)
    } else if name.contains('\0') {
        Some(CGroupError::InteriorNul)
    } else if reply == 0 {
        Some(CGroupError::Status { code: C_EC_CONTROLLER_CREATE_FAILED })
    } else {
        None
    }
}

/// What a group is, apart from how it is stored.
pub struct GroupModel {
    /// The name of the group.
    pub name: Seq<char>,
    /// The native handle of the group; 0 is the null handle.
    pub handle: usize,
    /// The handles of the controllers that the group has handed out and not
    /// taken back.
    pub attached: Set<usize>,
}

impl GroupModel {
    /// The group names no native handle: it was released.
    pub open spec fn is_null(self) -> bool {
        self.handle == 0
    }

    /// The handle that a release of the group gives to be freed.
    pub open spec fn released(self) -> Option<usize> {
        if self.is_null() {
            None
        } else {
            Some(self.handle)
        }
    }

    /// The group after its release.
    pub open spec fn after_free(self) -> Self {
        GroupModel { name: self.name, handle: 0, attached: Set::empty() }
    }

    /// The group after its controllers were taken back.
    pub open spec fn after_free_controllers(self) -> Self {
        GroupModel { name: self.name, handle: self.handle, attached: Set::empty() }
    }

    /// The group after it has handed out a controller.
    pub open spec fn after_attach(self, ctrl: usize) -> Self {
        GroupModel { name: self.name, handle: self.handle, attached: self.attached.insert(ctrl) }
    }

    /// What stands in the way of a copy of the group into a fresh handle: a
    /// released group has nothing to copy, and a fresh handle that is null,
    /// or that is the group's own handle again, is no group of its own.
    pub open spec fn clone_error(self, fresh: usize) -> Option<CGroupError> {
        if self.is_null() {
            Some(CGroupError::OutOfTurn)
        } else if fresh == 0 || fresh == self.handle {
            Some(CGroupError::Status { code: C_EC_GROUP_NOT_CREATED })
        } else {
            None
        }
    }

    /// The group that a copy of this one is filled into.
    pub open spec fn cloned(self, fresh: usize) -> Self {
        GroupModel { name: self.name, handle: fresh, attached: Set::empty() }
    }

    /// What the status of a copy from `source` into this group means: both
    /// have to be alive and two groups; then the status decides.
    pub open spec fn copy_result(self, source: Self, status: i32) -> Result<(), CGroupError> {
        if self.is_null() || source.is_null() || self.handle == source.handle {
            Err(CGroupError::OutOfTurn)
        } else {
            spec_cg_result(status)
        }
    }

    /// The group after a copy from `source` into it. A copy that was made
    /// replaces the controllers of the group, whatever its status.
    pub open spec fn after_copy(self, source: Self) -> Self {
        if self.is_null() || source.is_null() || self.handle == source.handle {
            self
        } else {
            self.after_free_controllers()
        }
    }

    /// Two groups are equal when both are alive and the native comparator
    /// reported success for them.
    pub open spec fn equal(self, other: Self, status: i32) -> bool {
        !self.is_null() && !other.is_null() && status == C_GROUP_SUCCESS
    }
}

impl<'a> View for CGroupBuilder<'a> {
    type V = GroupModel;

    closed spec fn view(&self) -> GroupModel {
        GroupModel {
            name: self.name@,
            handle: self.c_groups,
            attached: self.controllers@.to_set(),
        }
    }
}

impl<'a> CGroupBuilder<'a> {
    /// The name of the group.
    pub open spec fn spec_name(&self) -> Seq<char> {
        self@.name
    }

    /// The native handle of the group; 0 is the null handle.
    pub open spec fn spec_handle(&self) -> usize {
        self@.handle
    }

    /// The handles of the controllers that the group has handed out and
    /// not taken back.
    pub open spec fn attached(&self) -> Set<usize> {
        self@.attached
    }

    /// The group names no native handle: it was released.
    pub open spec fn spec_is_null(&self) -> bool {
        self@.is_null()
    }

    /// A controller is the group's own when the group is alive, the
    /// controller was obtained from this very handle, and its handle is
    /// still among those that the group has handed out.
    pub open spec fn spec_owns(&self, ctrl: &CGroupControllerBuilder) -> bool {
        &&& !self.spec_is_null()
        &&& ctrl.spec_group() == self.spec_handle()
        &&& self.attached().contains(ctrl.spec_handle())
    }

    /// Makes the group out of the reply of the native allocator. A name
    /// with a NUL character is refused; a null handle means that the group
    /// was not created.
    pub fn new(name: &'a str, handle: usize) -> (made: Result<Self, CGroupError>)
        ensures
            made is Err <==> name@.contains('\0') || handle == 0,
            made matches Err(error) ==> error == (if name@.contains('\0') {
                CGroupError::InteriorNul
            } else {
                CGroupError::Status { code: C_EC_GROUP_NOT_CREATED }
            }),
            made matches Ok(group) ==> group@ == (GroupModel {
                name: name@,
                handle,
                attached: Set::empty(),
            }),
    {
        if has_nul(name) {
            return Err(CGroupError::InteriorNul);
        }
        if handle == 0 {
            return Err(CGroupError::Status { code: C_EC_GROUP_NOT_CREATED });
        }
        let group = CGroupBuilder { name, c_groups: handle, controllers: Vec::new() };
        assert(group.controllers@.to_set() =~= Set::<usize>::empty());
        Ok(group)
    }

    /// A group without a handle: what is left where no group could be
    /// made. Nothing can be done on it, and its release frees nothing.
    pub fn null(name: &'a str) -> (group: Self)
        ensures
            group@ == (GroupModel { name: name@, handle: 0, attached: Set::empty() }),
    {
        let group = CGroupBuilder { name, c_groups: 0, controllers: Vec::new() };
        assert(group.controllers@.to_set() =~= Set::<usize>::empty());
        group
    }

    /// The name of the group.
    pub fn name(&self) -> (text: &'a str)
        ensures
            text@ == self.spec_name(),
    {
        self.name
    }

    /// Tells whether the group names no native handle.
    pub fn is_null(&self) -> (null: bool)
        ensures
            null == self.spec_is_null(),
    {
        self.c_groups == 0
    }

    /// The handle on which native calls for this group are made. A group
    /// that was released gives none.
    pub fn handle(&self) -> (handle: Result<usize, CGroupError>)
        ensures
            handle == (if self.spec_is_null() {
                Err(CGroupError::OutOfTurn)
            } else {
                Ok(self.spec_handle())
            }),
    {
        if self.c_groups == 0 {
            Err(CGroupError::OutOfTurn)
        } else {
            Ok(self.c_groups)
        }
    }

    /// Tells whether a controller is the group's own and still valid.
    pub fn owns(&self, ctrl: &CGroupControllerBuilder) -> (own: bool)
        ensures
            own == self.spec_owns(ctrl),
    {
        self.c_groups != 0 && ctrl.c_groups == self.c_groups && holds(
            &self.controllers,
            ctrl.c_groups_ctrl,
        )
    }

    /// Takes the reply to a request for a controller, new or existing, and
    /// counts its handle among the group's own.
    fn attach(&mut self, ctrl_name: &str, reply: usize) -> (made: Result<
        CGroupControllerBuilder,
        CGroupError,
    >)
        ensures
            made is Err <==> spec_controller_error(old(self).spec_is_null(), ctrl_name@, reply)
                is Some,
            made matches Err(error) ==> Some(error) == spec_controller_error(
                old(self).spec_is_null(),
                ctrl_name@,
                reply,
            ),
            made is Err ==> final(self)@ == old(self)@,
            made matches Ok(ctrl) ==> ({
                &&& ctrl.spec_name() == ctrl_name@
                &&& ctrl.spec_group() == old(self).spec_handle()
                &&& ctrl.spec_handle() == reply
                &&& final(self)@ == old(self)@.after_attach(reply)
                &&& final(self).spec_owns(&ctrl)
            }),
    {
        if self.c_groups == 0 {
            return Err(CGroupError::OutOfTurn);
        }
        if has_nul(ctrl_name) {
            return Err(CGroupError::InteriorNul);
        }
        if reply == 0 {
            return Err(CGroupError::Status { code: C_EC_CONTROLLER_CREATE_FAILED });
        }
        if !holds(&self.controllers, reply) {
            self.controllers.push(reply);
            assert(self.controllers@.to_set() =~= old(self).controllers@.to_set().insert(reply))
                by {
                assert forall|h: usize| #[trigger]
                    self.controllers@.contains(h) <==> old(self).controllers@.contains(h) || h
                        == reply by {
                    if old(self).controllers@.contains(h) {
                        let at = choose|i: int|
                            0 <= i < old(self).controllers@.len() && old(self).controllers@[i]
                                == h;
                        assert(self.controllers@[at] == h);
                    }
                    if h == reply {
                        assert(self.controllers@[self.controllers@.len() - 1] == h);
                    }
                }
            }
        } else {
            assert(self.controllers@.to_set() =~= self.controllers@.to_set().insert(reply));
        }
        Ok(CGroupControllerBuilder::new(String::from_str(ctrl_name), self.c_groups, reply))
    }

    /// Takes the reply to the request to add a controller: its handle, null
    /// where the subsystem refused. A released group takes none, a name
    /// with a NUL character is refused, and a null reply means that the
    /// controller was not created. Else the controller is the group's own.
    pub fn add_controller(&mut self, ctrl_name: &str, reply: usize) -> (made: Result<
        CGroupControllerBuilder,
        CGroupError,
    >)
        ensures
            made is Err <==> spec_controller_error(old(self).spec_is_null(), ctrl_name@, reply)
                is Some,
            made matches Err(error) ==> Some(error) == spec_controller_error(
                old(self).spec_is_null(),
                ctrl_name@,
                reply,
            ),
            made is Err ==> final(self)@ == old(self)@,
            made matches Ok(ctrl) ==> ({
                &&& ctrl.spec_name() == ctrl_name@
                &&& ctrl.spec_group() == old(self).spec_handle()
                &&& ctrl.spec_handle() == reply
                &&& final(self)@ == old(self)@.after_attach(reply)
                &&& final(self).spec_owns(&ctrl)
            }),
    {
        self.attach(ctrl_name, reply)
    }

    /// Takes the reply to the request for a controller that the group
    /// holds already; it is read as that of `add_controller` is.
    pub fn get_controller(&mut self, ctrl_name: &str, reply: usize) -> (made: Result<
        CGroupControllerBuilder,
        CGroupError,
    >)
        ensures
            made is Err <==> spec_controller_error(old(self).spec_is_null(), ctrl_name@, reply)
                is Some,
            made matches Err(error) ==> Some(error) == spec_controller_error(
                old(self).spec_is_null(),
                ctrl_name@,
                reply,
            ),
            made is Err ==> final(self)@ == old(self)@,
            made matches Ok(ctrl) ==> ({
                &&& ctrl.spec_name() == ctrl_name@
                &&& ctrl.spec_group() == old(self).spec_handle()
                &&& ctrl.spec_handle() == reply
                &&& final(self)@ == old(self)@.after_attach(reply)
                &&& final(self).spec_owns(&ctrl)
            }),
    {
        self.attach(ctrl_name, reply)
    }

    /// Releases the group. Gives the handle that has to be freed now, and
    /// gives it once: afterwards the group is null and holds no controller,
    /// so that a second `free` gives nothing.
    pub fn free(&mut self) -> (release: Option<usize>)
        ensures
            release == old(self)@.released(),
            final(self)@ == old(self)@.after_free(),
    {
        if self.c_groups == 0 {
            self.controllers = Vec::new();
            assert(self.controllers@.to_set() =~= Set::<usize>::empty());
            return None;
        }
        let handle: usize = self.c_groups;
        self.c_groups = 0;
        self.controllers = Vec::new();
        assert(self.controllers@.to_set() =~= Set::<usize>::empty());
        Some(handle)
    }

    /// Takes back all controllers. Gives the handle of the group, on which
    /// they have to be freed now; a released group gives nothing. No
    /// controller obtained before is the group's own after this.
    pub fn free_controllers(&mut self) -> (release: Option<usize>)
        ensures
            release == old(self)@.released(),
            final(self)@ == old(self)@.after_free_controllers(),
    {
        self.controllers = Vec::new();
        assert(self.controllers@.to_set() =~= Set::<usize>::empty());
        if self.c_groups == 0 {
            None
        } else {
            Some(self.c_groups)
        }
    }

    /// Takes the status with which the subsystem made the group durable.
    pub fn create(&self, status: i32) -> (outcome: Result<(), CGroupError>)
        ensures
            outcome == spec_handle_result(self.spec_is_null(), status),
    {
        self.settle(status)
    }

    /// Takes the status with which the subsystem made the group durable
    /// with the settings of its parent.
    pub fn create_from_parent(&self, status: i32) -> (outcome: Result<(), CGroupError>)
        ensures
            outcome == spec_handle_result(self.spec_is_null(), status),
    {
        self.settle(status)
    }

    /// Takes the status with which the subsystem wrote the pending values
    /// of all controllers of the group.
    pub fn modify(&self, status: i32) -> (outcome: Result<(), CGroupError>)
        ensures
            outcome == spec_handle_result(self.spec_is_null(), status),
    {
        self.settle(status)
    }

    /// Takes the status with which the subsystem removed the group.
    pub fn delete(&self, status: i32) -> (outcome: Result<(), CGroupError>)
        ensures
            outcome == spec_handle_result(self.spec_is_null(), status),
    {
        self.settle(status)
    }

    /// Takes the status with which the subsystem removed the group under
    /// the flags given to it.
    pub fn delete_ext(&self, status: i32) -> (outcome: Result<(), CGroupError>)
        ensures
            outcome == spec_handle_result(self.spec_is_null(), status),
    {
        self.settle(status)
    }

    /// Takes the status with which the subsystem set the owners of the
    /// group's files.
    pub fn set_uid_pid(&self, status: i32) -> (outcome: Result<(), CGroupError>)
        ensures
            outcome == spec_handle_result(self.spec_is_null(), status),
    {
        self.settle(status)
    }

    /// Takes the reply to the request for the owners of the group's files:
    /// the status and the four ids as the call left them, which count only
    /// where the status is no failure.
    pub fn get_uid_pid(
        &self,
        status: i32,
        tasks_uid: u32,
        tasks_gid: u32,
        ctrl_uid: u32,
        ctrl_gid: u32,
    ) -> (outcome: Result<(u32, u32, u32, u32), CGroupError>)
        ensures
            outcome == (match spec_handle_result(self.spec_is_null(), status) {
                Ok(_) => Ok((tasks_uid, tasks_gid, ctrl_uid, ctrl_gid)),
                Err(error) => Err(error),
            }),
    {
        match self.settle(status) {
            Ok(_) => Ok((tasks_uid, tasks_gid, ctrl_uid, ctrl_gid)),
            Err(error) => Err(error),
        }
    }

    /// Reads a status for this group.
    fn settle(&self, status: i32) -> (outcome: Result<(), CGroupError>)
        ensures
            outcome == spec_handle_result(self.spec_is_null(), status),
    {
        if self.c_groups == 0 {
            Err(CGroupError::OutOfTurn)
        } else {
            cg_result(status)
        }
    }

    /// Makes the group that a copy of this one will be filled into, out of
    /// the reply of the native allocator to the name of this group. The new
    /// group has the same name and a handle of its own, and holds no
    /// controller yet: `clone_from` takes the status of the copy.
    pub fn clone(&self, fresh: usize) -> (made: Result<Self, CGroupError>)
        ensures
            made is Err <==> self@.clone_error(fresh) is Some,
            made matches Err(error) ==> Some(error) == self@.clone_error(fresh),
            made matches Ok(copy) ==> copy@ == self@.cloned(fresh),
    {
        if self.c_groups == 0 {
            return Err(CGroupError::OutOfTurn);
        }
        if fresh == 0 || fresh == self.c_groups {
            return Err(CGroupError::Status { code: C_EC_GROUP_NOT_CREATED });
        }
        let copy = CGroupBuilder { name: self.name, c_groups: fresh, controllers: Vec::new() };
        assert(copy.controllers@.to_set() =~= Set::<usize>::empty());
        Ok(copy)
    }

    /// Takes the status of the native copy of `source` into this group.
    /// The group keeps its own handle whatever the status is. The copy
    /// replaces the controllers of the group, so those handed out before
    /// are valid no longer.
    pub fn clone_from(&mut self, source: &Self, status: i32) -> (outcome: Result<(), CGroupError>)
        ensures
            outcome == old(self)@.copy_result(source@, status),
            final(self)@ == old(self)@.after_copy(source@),
    {
        if self.c_groups == 0 || source.c_groups == 0 || self.c_groups == source.c_groups {
            return Err(CGroupError::OutOfTurn);
        }
        self.controllers = Vec::new();
        assert(self.controllers@.to_set() =~= Set::<usize>::empty());
        cg_result(status)
    }

    /// Takes the status with which the native comparator answered for this
    /// group and another. They are equal only if both are alive and the
    /// comparator reported success; every other status means that they
    /// differ, and is no error.
    pub fn eq(&self, other: &Self, status: i32) -> (equal: bool)
        ensures
            equal == self@.equal(other@, status),
    {
        self.c_groups != 0 && other.c_groups != 0 && status == C_GROUP_SUCCESS
    }
}

impl CGroupControllerBuilder {
    /// The name of the controller.
    pub closed spec fn spec_name(&self) -> Seq<char> {
        self.name@
    }

    /// The handle of the group from which the controller was obtained.
    pub closed spec fn spec_group(&self) -> usize {
        self.c_groups
    }

    /// The native handle of the controller; 0 is the null handle.
    pub closed spec fn spec_handle(&self) -> usize {
        self.c_groups_ctrl
    }

    /// The controller names no native handle.
    pub open spec fn spec_is_null(&self) -> bool {
        self.spec_handle() == 0
    }

    /// Puts a controller together from its name and the two handles.
    pub fn new(name: String, c_groups: usize, c_groups_ctrl: usize) -> (ctrl: Self)
        ensures
            ctrl.spec_name() == name@,
            ctrl.spec_group() == c_groups,
            ctrl.spec_handle() == c_groups_ctrl,
    {
        Self { name, c_groups, c_groups_ctrl }
    }

    /// The name of the controller.
    pub fn name(&self) -> (text: &str)
        ensures
            text@ == self.spec_name(),
    {
        self.name.as_str()
    }

    /// Tells whether the controller names no native handle.
    pub fn is_null(&self) -> (null: bool)
        ensures
            null == self.spec_is_null(),
    {
        self.c_groups_ctrl == 0
    }

    /// The handle on which native calls for this controller are made. It is
    /// given only while the group still owns the controller.
    pub fn handle(&self, group: &CGroupBuilder) -> (handle: Result<usize, CGroupError>)
        ensures
            handle == (if group.spec_owns(self) && !self.spec_is_null() {
                Ok(self.spec_handle())
            } else {
                Err(CGroupError::OutOfTurn)
            }),
    {
        if group.owns(self) && self.c_groups_ctrl != 0 {
            Ok(self.c_groups_ctrl)
        } else {
            Err(CGroupError::OutOfTurn)
        }
    }

    /// Reads a status for an operation on the attribute `name`.
    fn settle(&self, name: &str, status: i32) -> (outcome: Result<(), CGroupError>)
        ensures
            outcome == spec_named_result(self.spec_is_null(), name@, status),
    {
        if self.c_groups_ctrl == 0 {
            Err(CGroupError::OutOfTurn)
        } else if has_nul(name) {
            Err(CGroupError::InteriorNul)
        } else {
            cg_result(status)
        }
    }

    /// Takes the status of adding a text value.
    pub fn add_str(&self, name: &str, value: &str, status: i32) -> (outcome: Result<
        (),
        CGroupError,
    >)
        ensures
            outcome == (if !self.spec_is_null() && !name@.contains('\0') && value@.contains('\0') {
                Err(CGroupError::InteriorNul)
            } else {
                spec_named_result(self.spec_is_null(), name@, status)
            }),
    {
        if self.c_groups_ctrl != 0 && !has_nul(name) && has_nul(value) {
            return Err(CGroupError::InteriorNul);
        }
        self.settle(name, status)
    }

    /// Takes the status of adding a signed value.
    pub fn add_i64(&self, name: &str, status: i32) -> (outcome: Result<(), CGroupError>)
        ensures
            outcome == spec_named_result(self.spec_is_null(), name@, status),
    {
        self.settle(name, status)
    }

    /// Takes the status of adding an unsigned value.
    pub fn add_u64(&self, name: &str, status: i32) -> (outcome: Result<(), CGroupError>)
        ensures
            outcome == spec_named_result(self.spec_is_null(), name@, status),
    {
        self.settle(name, status)
    }

    /// Takes the status of adding a truth value.
    pub fn add_bool(&self, name: &str, status: i32) -> (outcome: Result<(), CGroupError>)
        ensures
            outcome == spec_named_result(self.spec_is_null(), name@, status),
    {
        self.settle(name, status)
    }

    /// Takes the status of setting a text value.
    pub fn set_str(&self, name: &str, value: &str, status: i32) -> (outcome: Result<
        (),
        CGroupError,
    >)
        ensures
            outcome == (if !self.spec_is_null() && !name@.contains('\0') && value@.contains('\0') {
                Err(CGroupError::InteriorNul)
            } else {
                spec_named_result(self.spec_is_null(), name@, status)
            }),
    {
        if self.c_groups_ctrl != 0 && !has_nul(name) && has_nul(value) {
            return Err(CGroupError::InteriorNul);
        }
        self.settle(name, status)
    }

    /// Takes the status of setting a signed value.
    pub fn set_i64(&self, name: &str, status: i32) -> (outcome: Result<(), CGroupError>)
        ensures
            outcome == spec_named_result(self.spec_is_null(), name@, status),
    {
        self.settle(name, status)
    }

    /// Takes the status of setting an unsigned value.
    pub fn set_u64(&self, name: &str, status: i32) -> (outcome: Result<(), CGroupError>)
        ensures
            outcome == spec_named_result(self.spec_is_null(), name@, status),
    {
        self.settle(name, status)
    }

    /// Takes the status of setting a truth value.
    pub fn set_bool(&self, name: &str, status: i32) -> (outcome: Result<(), CGroupError>)
        ensures
            outcome == spec_named_result(self.spec_is_null(), name@, status),
    {
        self.settle(name, status)
    }

    /// Takes the reply to the request for a text value: the status, and the
    /// buffer with the C string that the call left, which counts only where
    /// the status is no failure.
    pub fn get_str(&self, name: &str, status: i32, value: &[u8]) -> (outcome: Result<
        String,
        CGroupError,
    >)
        ensures
            outcome is Err <==> spec_named_result(self.spec_is_null(), name@, status) is Err,
            outcome matches Err(error) ==> Err::<(), CGroupError>(error) == spec_named_result(
                self.spec_is_null(),
                name@,
                status,
            ),
            outcome matches Ok(text) ==> reads_as(value@, text@),
    {
        match self.settle(name, status) {
            Ok(_) => Ok(c_str_text(value)),
            Err(error) => Err(error),
        }
    }

    /// Takes the reply to the request for a signed value.
    pub fn get_i64(&self, name: &str, status: i32, value: i64) -> (outcome: Result<
        i64,
        CGroupError,
    >)
        ensures
            outcome == (match spec_named_result(self.spec_is_null(), name@, status) {
                Ok(_) => Ok(value),
                Err(error) => Err(error),
            }),
    {
        match self.settle(name, status) {
            Ok(_) => Ok(value),
            Err(error) => Err(error),
        }
    }

    /// Takes the reply to the request for an unsigned value.
    pub fn get_u64(&self, name: &str, status: i32, value: u64) -> (outcome: Result<
        u64,
        CGroupError,
    >)
        ensures
            outcome == (match spec_named_result(self.spec_is_null(), name@, status) {
                Ok(_) => Ok(value),
                Err(error) => Err(error),
            }),
    {
        match self.settle(name, status) {
            Ok(_) => Ok(value),
            Err(error) => Err(error),
        }
    }

    /// Takes the reply to the request for a truth value.
    pub fn get_bool(&self, name: &str, status: i32, value: bool) -> (outcome: Result<
        bool,
        CGroupError,
    >)
        ensures
            outcome == (match spec_named_result(self.spec_is_null(), name@, status) {
                Ok(_) => Ok(value),
                Err(error) => Err(error),
            }),
    {
        match self.settle(name, status) {
            Ok(_) => Ok(value),
            Err(error) => Err(error),
        }
    }

    /// Takes the status with which the native comparator answered for this
    /// controller and another. They are equal only if neither is null and
    /// the comparator reported success.
    pub fn eq(&self, other: &Self, status: i32) -> (equal: bool)
        ensures
            equal == (!self.spec_is_null() && !other.spec_is_null() && status
                == C_GROUP_SUCCESS),
    {
        self.c_groups_ctrl != 0 && other.c_groups_ctrl != 0 && status == C_GROUP_SUCCESS
    }
}

} // verus!
