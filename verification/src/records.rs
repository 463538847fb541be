//! The records that the enumerations give, as plain values.

use vstd::prelude::*;
use crate::text::{c_str_text, reads_as};

verus! {

/// What a node of the tree of groups is.
#[allow(non_camel_case_types)]
#[derive(Clone, Copy, Debug, PartialEq, Eq, Structural)]
pub enum cgroup_file_type {
    FILE,
    DIR,
    OTHER,
}

impl cgroup_file_type {
    /// The type that a number of the subsystem stands for: 0 is a file, 1 a
    /// directory, every other number something else.
    pub fn from_raw(raw: i32) -> (kind: Self)
        ensures
            kind == (if raw == 0 {
                cgroup_file_type::FILE
            } else if raw == 1 {
                cgroup_file_type::DIR
            } else {
                cgroup_file_type::OTHER
            }),
    {
        if raw == 0 {
            cgroup_file_type::FILE
        } else if raw == 1 {
            cgroup_file_type::DIR
        } else {
            cgroup_file_type::OTHER
        }
    }
}

/// A node of the tree of groups.
#[derive(Clone, Debug)]
pub struct CGroupFileInfo {
    pub c_type: cgroup_file_type,
    pub path: String,
    pub parent: String,
    pub full_path: String,
    pub depth: i16,
}

impl Default for CGroupFileInfo {
    fn default() -> (info: Self)
        ensures
            info.c_type == cgroup_file_type::FILE,
            info.path@ == Seq::<char>::empty(),
            info.parent@ == Seq::<char>::empty(),
            info.full_path@ == Seq::<char>::empty(),
            info.depth == 0,
    {
        CGroupFileInfo {
            c_type: cgroup_file_type::FILE,
            path: String::new(),
            parent: String::new(),
            full_path: String::new(),
            depth: 0,
        }
    }
}

/// One statistic of a controller: two buffers as the subsystem filled them,
/// each holding a C string.
#[derive(Clone, Debug)]
pub struct CGroupStat {
    pub name: Vec<u8>,
    pub value: Vec<u8>,
}

impl CGroupStat {
    /// The name of the statistic.
    pub fn get_name(&self) -> (text: String)
        ensures
            reads_as(self.name@, text@),
    {
        c_str_text(self.name.as_slice())
    }

    /// The value of the statistic.
    pub fn get_value(&self) -> (text: String)
        ensures
            reads_as(self.value@, text@),
    {
        c_str_text(self.value.as_slice())
    }
}

impl Default for CGroupStat {
    fn default() -> (stat: Self)
        ensures
            stat.name@ == Seq::<u8>::empty(),
            stat.value@ == Seq::<u8>::empty(),
    {
        CGroupStat { name: Vec::new(), value: Vec::new() }
    }
}

/// Where a controller is mounted: two buffers as the subsystem filled them,
/// each holding a C string.
#[derive(Clone, Debug)]
pub struct CGroupMountPoint {
    pub name: Vec<u8>,
    pub path: Vec<u8>,
}

impl CGroupMountPoint {
    /// The name of the controller.
    pub fn get_name(&self) -> (text: String)
        ensures
            reads_as(self.name@, text@),
    {
        c_str_text(self.name.as_slice())
    }

    /// The path at which it is mounted.
    pub fn get_path(&self) -> (text: String)
        ensures
            reads_as(self.path@, text@),
    {
        c_str_text(self.path.as_slice())
    }
}

impl Default for CGroupMountPoint {
    fn default() -> (point: Self)
        ensures
            point.name@ == Seq::<u8>::empty(),
            point.path@ == Seq::<u8>::empty(),
    {
        CGroupMountPoint { name: Vec::new(), path: Vec::new() }
    }
}

/// The unsigned number with the bits of a signed one: the number itself
/// where it is not negative, else 2^32 more.
pub open spec fn spec_unsigned(value: i32) -> int {
    if value >= 0 {
        value as int
    } else {
        value as int + 0x1_0000_0000
    }
}

/// Reads a signed number as unsigned, bit for bit.
pub fn unsigned(value: i32) -> (number: u32)
    ensures
        number as int == spec_unsigned(value),
{
    if value >= 0 {
        value as u32
    } else {
        let above: u32 = (value - i32::MIN) as u32;
        above + 0x8000_0000u32
    }
}

/// An entry of the registry of all controllers.
#[derive(Clone, Debug)]
pub struct CGroupControllerData {
    pub name: Vec<u8>,
    pub hierarchy: i32,
    pub num_cgroups: i32,
    pub enabled: i32,
}

impl CGroupControllerData {
    /// The name of the controller.
    pub fn get_name(&self) -> (text: String)
        ensures
            reads_as(self.name@, text@),
    {
        c_str_text(self.name.as_slice())
    }

    /// The id of the hierarchy, read as unsigned.
    pub fn get_hierarchy(&self) -> (id: u32)
        ensures
            id as int == spec_unsigned(self.hierarchy),
    {
        unsigned(self.hierarchy)
    }

    /// The number of groups that use the controller, read as unsigned.
    pub fn get_num_cgroups(&self) -> (count: u32)
        ensures
            count as int == spec_unsigned(self.num_cgroups),
    {
        unsigned(self.num_cgroups)
    }

    /// The flag that tells whether the controller is enabled, read as
    /// unsigned.
    pub fn get_enabled(&self) -> (flag: u32)
        ensures
            flag as int == spec_unsigned(self.enabled),
    {
        unsigned(self.enabled)
    }

    /// An entry is consistent when neither the id of its hierarchy nor its
    /// flag is negative.
    pub open spec fn spec_is_consistent(&self) -> bool {
        self.hierarchy >= 0 && self.enabled >= 0
    }

    /// Tells whether the entry is consistent.
    pub fn is_consistent(&self) -> (consistent: bool)
        ensures
            consistent == self.spec_is_consistent(),
    {
        self.hierarchy >= 0 && self.enabled >= 0
    }

    /// Of a consistent entry the unsigned readings are the numbers
    /// themselves.
    pub proof fn lemma_consistent_readings(&self)
        requires
            self.spec_is_consistent(),
        ensures
            spec_unsigned(self.hierarchy) == self.hierarchy,
            spec_unsigned(self.enabled) == self.enabled,
    {
    }
}

impl Default for CGroupControllerData {
    fn default() -> (data: Self)
        ensures
            data.name@ == Seq::<u8>::empty(),
            data.hierarchy == 0,
            data.num_cgroups == 0,
            data.enabled == 0,
    {
        CGroupControllerData { name: Vec::new(), hierarchy: 0, num_cgroups: 0, enabled: 0 }
    }
}

} // verus!
