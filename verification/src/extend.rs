//! Mounting the control-group filesystem: what is checked before the
//! operating system is asked, and what its answer means.

use vstd::prelude::*;
use crate::error::CGroupError;
use crate::text::{has_nul, is_blank, spec_is_blank};

verus! {

/// Unmount without flags.
pub const MNT_DEFAULT: i32 = 0x0;

/// Force the unmount.
pub const MNT_FORCE: i32 = 0x1;

/// Detach lazily.
pub const MNT_DETACH: i32 = 0x2;

/// Mark the mount point as expired.
pub const MNT_EXPIRE: i32 = 0x4;

/// Do not follow a symbolic link at the target.
pub const UMOUNT_NOFOLLOW: i32 = 0x6;

/// What a look at a path has shown.
#[derive(Clone, Copy, Debug, PartialEq, Eq, Structural)]
pub enum PathProbe {
    /// A directory is there.
    Directory,
    /// Something is there that is no directory.
    NotDirectory,
    /// Nothing is there.
    NotFound,
    /// The look failed for another reason.
    Unreadable,
}

/// The call by which a target is unmounted.
#[derive(Clone, Copy, Debug, PartialEq, Eq, Structural)]
pub enum UmountCall {
    /// The plain call.
    Plain,
    /// The call that takes flags.
    Flagged { flags: i32 },
}

/// The parameters of a mount, apart from how they are stored.
pub struct MountModel {
    pub src_path: Seq<char>,
    pub target_path: Seq<char>,
    pub fs_type: Seq<char>,
    pub flags: u64,
    pub opts: Seq<char>,
}

impl MountModel {
    /// What stands in the way of a mount: the target, the source and the
    /// type must each say something, and no parameter may hold a NUL
    /// character.
    pub open spec fn mount_error(self) -> Option<CGroupError> {
        if spec_is_blank(self.target_path) || spec_is_blank(self.src_path) || spec_is_blank(
            self.fs_type,
        ) {
            Some(CGroupError::BlankParameter)
        } else if self.target_path.contains('\0') || self.src_path.contains('\0')
            || self.fs_type.contains('\0') || self.opts.contains('\0') {
            Some(CGroupError::InteriorNul)
        } else {
            None
        }
    }

    /// What stands in the way of an unmount: the target must say something
    /// and hold no NUL character.
    pub open spec fn umount_error(self) -> Option<CGroupError> {
        if spec_is_blank(self.target_path) {
            Some(CGroupError::BlankParameter)
        } else if self.target_path.contains('\0') {
            Some(CGroupError::InteriorNul)
        } else {
            None
        }
    }
}

/// The call that unmounts under a flag.
pub open spec fn spec_umount_call(flag: i32) -> UmountCall {
    if flag == MNT_DEFAULT {
        UmountCall::Plain
    } else {
        UmountCall::Flagged { flags: flag }
    }
}

/// What the answer of the operating system to a mount or an unmount means:
/// zero is success, every other number the error of that number.
pub open spec fn spec_os_result(answer: i32) -> Result<(), CGroupError> {
    if answer == 0 {
        Ok(())
    } else {
        Err(CGroupError::Os { code: answer })
    }
}

/// Collects the parameters of a mount.
pub struct MountBuilder<'a, 'b, 'c, 'd> {
    src_path: &'a str,
    target_path: &'b str,
    fs_type: &'c str,
    flags: u64,
    opts: &'d str,
}

impl<'a, 'b, 'c, 'd> View for MountBuilder<'a, 'b, 'c, 'd> {
    type V = MountModel;

    closed spec fn view(&self) -> MountModel {
        MountModel {
            src_path: self.src_path@,
            target_path: self.target_path@,
            fs_type: self.fs_type@,
            flags: self.flags,
            opts: self.opts@,
        }
    }
}

impl<'a, 'b, 'c, 'd> MountBuilder<'a, 'b, 'c, 'd> {
    /// A builder with every text empty and no flags.
    pub fn new() -> (builder: Self)
        ensures
            builder@ == (MountModel {
                src_path: Seq::empty(),
                target_path: Seq::empty(),
                fs_type: Seq::empty(),
                flags: 0,
                opts: Seq::empty(),
            }),
    {
        proof {
            reveal_strlit("");
        }
        let builder = Self { src_path: "", target_path: "", fs_type: "", flags: 0, opts: "" };
        assert(builder.src_path@ =~= Seq::<char>::empty());
        builder
    }

    /// Sets the type of the filesystem.
    pub fn set_type_name(&mut self, fs_type: &'c str) -> (me: &mut Self)
        ensures
            me@ == (MountModel { fs_type: fs_type@, ..old(self)@ }),
            *final(self) == *final(me),
    {
        self.fs_type = fs_type;
        self
    }

    /// Sets what is mounted.
    pub fn set_src_path(&mut self, src_path: &'a str) -> (me: &mut Self)
        ensures
            me@ == (MountModel { src_path: src_path@, ..old(self)@ }),
            *final(self) == *final(me),
    {
        self.src_path = src_path;
        self
    }

    /// Sets where it is mounted.
    pub fn set_target_path(&mut self, target_path: &'b str) -> (me: &mut Self)
        ensures
            me@ == (MountModel { target_path: target_path@, ..old(self)@ }),
            *final(self) == *final(me),
    {
        self.target_path = target_path;
        self
    }

    /// Sets the flags of the mount.
    pub fn set_flags(&mut self, flags: u64) -> (me: &mut Self)
        ensures
            me@ == (MountModel { flags: flags, ..old(self)@ }),
            *final(self) == *final(me),
    {
        self.flags = flags;
        self
    }

    /// Sets the options of the mount.
    pub fn set_opts(&mut self, opts: &'d str) -> (me: &mut Self)
        ensures
            me@ == (MountModel { opts: opts@, ..old(self)@ }),
            *final(self) == *final(me),
    {
        self.opts = opts;
        self
    }

    /// What is mounted.
    pub fn src_path(&self) -> (text: &'a str)
        ensures
            text@ == self@.src_path,
    {
        self.src_path
    }

    /// Where it is mounted.
    pub fn target_path(&self) -> (text: &'b str)
        ensures
            text@ == self@.target_path,
    {
        self.target_path
    }

    /// The type of the filesystem.
    pub fn fs_type(&self) -> (text: &'c str)
        ensures
            text@ == self@.fs_type,
    {
        self.fs_type
    }

    /// The flags of the mount.
    pub fn flags(&self) -> (flags: u64)
        ensures
            flags == self@.flags,
    {
        self.flags
    }

    /// The options of the mount.
    pub fn opts(&self) -> (text: &'d str)
        ensures
            text@ == self@.opts,
    {
        self.opts
    }

    /// Tells whether a parameter says nothing: it is empty or holds white
    /// space only.
    pub fn is_param_failed(s: &str) -> (failed: bool)
        ensures
            failed == spec_is_blank(s@),
    {
        is_blank(s)
    }

    /// Checks the parameters before anything is done for a mount. Only
    /// where this gives no error is the target directory created and the
    /// mount asked for.
    pub fn mount(&self) -> (outcome: Result<(), CGroupError>)
        ensures
            outcome == (match self@.mount_error() {
                Some(error) => Err(error),
                None => Ok(()),
            }),
    {
        if Self::is_param_failed(self.target_path) || Self::is_param_failed(self.src_path)
            || Self::is_param_failed(self.fs_type) {
            return Err(CGroupError::BlankParameter);
        }
        if has_nul(self.target_path) || has_nul(self.src_path) || has_nul(self.fs_type) || has_nul(
            self.opts,
        ) {
            return Err(CGroupError::InteriorNul);
        }
        Ok(())
    }

    /// Takes the answer of the operating system to the mount. Where it is
    /// an error, the target directory that was created for the mount has
    /// to be removed again.
    pub fn mounted(&self, answer: i32) -> (outcome: Result<(), CGroupError>)
        ensures
            outcome == spec_os_result(answer),
    {
        if answer == 0 {
            Ok(())
        } else {
            Err(CGroupError::Os { code: answer })
        }
    }

    /// Tells from a look at the target whether the mount point exists: it
    /// does unless nothing is there or what is there is no directory.
    pub fn target_exists(&self, probe: PathProbe) -> (present: bool)
        ensures
            present == (probe != PathProbe::NotDirectory && probe != PathProbe::NotFound),
    {
        match probe {
            PathProbe::NotDirectory => false,
            PathProbe::NotFound => false,
            _ => true,
        }
    }

    /// Checks the target before an unmount and chooses the call: the plain
    /// one for the default flag, else the one that takes flags.
    pub fn umount(&self, flag: i32) -> (outcome: Result<UmountCall, CGroupError>)
        ensures
            outcome == (match self@.umount_error() {
                Some(error) => Err(error),
                None => Ok(spec_umount_call(flag)),
            }),
    {
        if Self::is_param_failed(self.target_path) {
            return Err(CGroupError::BlankParameter);
        }
        if has_nul(self.target_path) {
            return Err(CGroupError::InteriorNul);
        }
        if flag == MNT_DEFAULT {
            Ok(UmountCall::Plain)
        } else {
            Ok(UmountCall::Flagged { flags: flag })
        }
    }

    /// Takes the answer of the operating system to the unmount. Only
    /// where it is no error is the target directory removed.
    pub fn unmounted(&self, answer: i32) -> (outcome: Result<(), CGroupError>)
        ensures
            outcome == spec_os_result(answer),
    {
        if answer == 0 {
            Ok(())
        } else {
            Err(CGroupError::Os { code: answer })
        }
    }
}

} // verus!
