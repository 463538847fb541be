//! Status codes of the control-group subsystem and their classification.

use vstd::prelude::*;

verus! {

/// The call succeeded.
pub const C_GROUP_SUCCESS: i32 = 0;

/// The subsystem was built without control-group support.
pub const C_EC_GROUP_NOT_COMPILED: i32 = 50000;

/// The control-group filesystem is not mounted.
pub const C_EC_GROUP_NOT_MOUNTED: i32 = 50001;

/// The group does not exist.
pub const C_EC_GROUP_NOT_EXIST: i32 = 50002;

/// The group could not be created.
pub const C_EC_GROUP_NOT_CREATED: i32 = 50003;

/// One of the needed controllers is not mounted.
pub const C_EC_GROUP_SUBSYS_NOT_MOUNTED: i32 = 50004;

/// The caller does not own the group.
pub const C_EC_GROUP_NOT_OWNER: i32 = 50005;

/// A controller is bound to different mount points.
pub const C_EC_GROUP_MULTI_MOUTHED: i32 = 50006;

/// The operation is not allowed for this caller.
pub const C_EC_GROUP_NOT_ALLOWED: i32 = 50007;

/// A controller cannot hold more values.
pub const C_EC_MAX_VALUES_EXCEEDED: i32 = 50008;

/// The controller is already attached.
pub const C_EC_CONTROLLER_EXISTS: i32 = 50009;

/// The value is already present.
pub const C_EC_VALUE_EXISTS: i32 = 50010;

/// An argument is invalid.
pub const C_EC_INVAL: i32 = 50011;

/// The controller could not be created.
pub const C_EC_CONTROLLER_CREATE_FAILED: i32 = 50012;

/// The operation failed.
pub const C_EC_FAIL: i32 = 50013;

/// The subsystem has not been initialized.
pub const C_EC_GROUP_NOT_INITIALIZED: i32 = 50014;

/// The value does not exist.
pub const C_EC_GROUP_VALUE_NOT_EXIST: i32 = 50015;

/// An error of a library beneath the subsystem; no detail is available.
pub const C_EC_OTHER: i32 = 50016;

/// Two groups are not equal.
pub const C_EC_GROUP_NOT_EQUAL: i32 = 50017;

/// Two controllers are not equal.
pub const C_EC_GROUP_ROLLER_NOT_EQUAL: i32 = 50018;

/// The rules file could not be parsed.
pub const C_EC_GROUP_PARSE_FAIL: i32 = 50019;

/// There is no list of rules.
pub const C_EC_GROUP_NO_RULES: i32 = 50020;

/// Mounting failed.
pub const C_EC_GROUP_MOUNT_FAIL: i32 = 50021;

/// Not an error: marks the end of a range of codes.
pub const C_EC_GROUP_SENTINEL: i32 = 50022;

/// Not an error: an enumeration has no more items.
pub const C_EC_GROUP_EOF: i32 = 50023;

/// The configuration file could not be parsed.
pub const C_EC_GROUP_CONFIG_PARSE_FAIL: i32 = 50024;

/// The namespace paths are wrong.
pub const C_EC_GROUP_NAMESPACE_PATHS: i32 = 50025;

/// The namespace controller is wrong.
pub const C_EC_GROUP_NAMESPACE_CONTROLLER: i32 = 50026;

/// The mount namespace is wrong.
pub const C_EC_GROUP_MOUNT_NAMESPACE: i32 = 50027;

/// What a status code means.
#[derive(Clone, Copy, Debug, PartialEq, Eq, Structural)]
pub enum StatusKind {
    Success,
    NotCompiled,
    NotMounted,
    NotExist,
    NotCreated,
    SubsysNotMounted,
    NotOwner,
    MultiMounted,
    NotAllowed,
    MaxValuesExceeded,
    ControllerExists,
    ValueExists,
    Invalid,
    ControllerCreateFailed,
    Fail,
    NotInitialized,
    ValueNotExist,
    Other,
    NotEqual,
    ControllerNotEqual,
    ParseFail,
    NoRules,
    MountFail,
    Sentinel,
    Eof,
    ConfigParseFail,
    NamespacePaths,
    NamespaceController,
    MountNamespace,
    /// A code that the table of the subsystem does not list.
    Unlisted,
}

/// The kind of a status code: one kind for each listed code, `Unlisted` for
/// every other number.
pub open spec fn spec_kind_of(code: i32) -> StatusKind {
    if code == C_GROUP_SUCCESS {
        StatusKind::Success
    } else if code == C_EC_GROUP_NOT_COMPILED {
        StatusKind::NotCompiled
    } else if code == C_EC_GROUP_NOT_MOUNTED {
        StatusKind::NotMounted
    } else if code == C_EC_GROUP_NOT_EXIST {
        StatusKind::NotExist
    } else if code == C_EC_GROUP_NOT_CREATED {
        StatusKind::NotCreated
    } else if code == C_EC_GROUP_SUBSYS_NOT_MOUNTED {
        StatusKind::SubsysNotMounted
    } else if code == C_EC_GROUP_NOT_OWNER {
        StatusKind::NotOwner
    } else if code == C_EC_GROUP_MULTI_MOUTHED {
        StatusKind::MultiMounted
    } else if code == C_EC_GROUP_NOT_ALLOWED {
        StatusKind::NotAllowed
    } else if code == C_EC_MAX_VALUES_EXCEEDED {
        StatusKind::MaxValuesExceeded
    } else if code == C_EC_CONTROLLER_EXISTS {
        StatusKind::ControllerExists
    } else if code == C_EC_VALUE_EXISTS {
        StatusKind::ValueExists
    } else if code == C_EC_INVAL {
        StatusKind::Invalid
    } else if code == C_EC_CONTROLLER_CREATE_FAILED {
        StatusKind::ControllerCreateFailed
    } else if code == C_EC_FAIL {
        StatusKind::Fail
    } else if code == C_EC_GROUP_NOT_INITIALIZED {
        StatusKind::NotInitialized
    } else if code == C_EC_GROUP_VALUE_NOT_EXIST {
        StatusKind::ValueNotExist
    } else if code == C_EC_OTHER {
        StatusKind::Other
    } else if code == C_EC_GROUP_NOT_EQUAL {
        StatusKind::NotEqual
    } else if code == C_EC_GROUP_ROLLER_NOT_EQUAL {
        StatusKind::ControllerNotEqual
    } else if code == C_EC_GROUP_PARSE_FAIL {
        StatusKind::ParseFail
    } else if code == C_EC_GROUP_NO_RULES {
        StatusKind::NoRules
    } else if code == C_EC_GROUP_MOUNT_FAIL {
        StatusKind::MountFail
    } else if code == C_EC_GROUP_SENTINEL {
        StatusKind::Sentinel
    } else if code == C_EC_GROUP_EOF {
        StatusKind::Eof
    } else if code == C_EC_GROUP_CONFIG_PARSE_FAIL {
        StatusKind::ConfigParseFail
    } else if code == C_EC_GROUP_NAMESPACE_PATHS {
        StatusKind::NamespacePaths
    } else if code == C_EC_GROUP_NAMESPACE_CONTROLLER {
        StatusKind::NamespaceController
    } else if code == C_EC_GROUP_MOUNT_NAMESPACE {
        StatusKind::MountNamespace
    } else {
        StatusKind::Unlisted
    }
}

/// Classifies a status code.
pub fn kind_of(code: i32) -> (kind: StatusKind)
    ensures
        kind == spec_kind_of(code),
{
    match code {
        0 => StatusKind::Success,
        50000 => StatusKind::NotCompiled,
        50001 => StatusKind::NotMounted,
        50002 => StatusKind::NotExist,
        50003 => StatusKind::NotCreated,
        50004 => StatusKind::SubsysNotMounted,
        50005 => StatusKind::NotOwner,
        50006 => StatusKind::MultiMounted,
        50007 => StatusKind::NotAllowed,
        50008 => StatusKind::MaxValuesExceeded,
        50009 => StatusKind::ControllerExists,
        50010 => StatusKind::ValueExists,
        50011 => StatusKind::Invalid,
        50012 => StatusKind::ControllerCreateFailed,
        50013 => StatusKind::Fail,
        50014 => StatusKind::NotInitialized,
        50015 => StatusKind::ValueNotExist,
        50016 => StatusKind::Other,
        50017 => StatusKind::NotEqual,
        50018 => StatusKind::ControllerNotEqual,
        50019 => StatusKind::ParseFail,
        50020 => StatusKind::NoRules,
        50021 => StatusKind::MountFail,
        50022 => StatusKind::Sentinel,
        50023 => StatusKind::Eof,
        50024 => StatusKind::ConfigParseFail,
        50025 => StatusKind::NamespacePaths,
        50026 => StatusKind::NamespaceController,
        50027 => StatusKind::MountNamespace,
        _ => StatusKind::Unlisted,
    }
}

/// The two codes that mark something and report no failure: the end of a
/// range of codes and the end of an enumeration.
pub open spec fn spec_is_sentinel(code: i32) -> bool {
    code == C_EC_GROUP_SENTINEL || code == C_EC_GROUP_EOF
}

/// A failure is every status but success and the two marks.
pub open spec fn spec_is_failure(code: i32) -> bool {
    code != C_GROUP_SUCCESS && !spec_is_sentinel(code)
}

/// Tells whether a code is one of the two marks.
pub fn is_sentinel(code: i32) -> (mark: bool)
    ensures
        mark == spec_is_sentinel(code),
{
    code == C_EC_GROUP_SENTINEL || code == C_EC_GROUP_EOF
}

/// Tells whether a status is to be reported to the caller as an error.
pub fn is_failure(code: i32) -> (failed: bool)
    ensures
        failed == spec_is_failure(code),
{
    code != C_GROUP_SUCCESS && !is_sentinel(code)
}

/// The families into which the kinds fall.
#[derive(Clone, Copy, Debug, PartialEq, Eq, Structural)]
pub enum StatusClass {
    /// No failure: success and the two marks.
    Benign,
    /// Something has to be compiled in, initialized, mounted or existing first.
    Precondition,
    /// Ownership or permission denies the operation.
    Permission,
    /// A group or a controller could not be allocated or created.
    Resource,
    /// An argument or a value is refused.
    Validation,
    /// Two groups or two controllers differ; an answer, not a fault.
    Comparison,
    /// A configuration or a rules file could not be read.
    Parse,
    /// Raised beneath the subsystem, or unknown to its table: no detail.
    Opaque,
}

/// The family of each kind.
pub open spec fn spec_class_of(kind: StatusKind) -> StatusClass {
    match kind {
        StatusKind::Success | StatusKind::Sentinel | StatusKind::Eof => StatusClass::Benign,
        StatusKind::NotCompiled
        | StatusKind::NotMounted
        | StatusKind::NotExist
        | StatusKind::SubsysNotMounted
        | StatusKind::NotInitialized => StatusClass::Precondition,
        StatusKind::NotOwner | StatusKind::NotAllowed => StatusClass::Permission,
        StatusKind::NotCreated
        | StatusKind::ControllerCreateFailed
        | StatusKind::MaxValuesExceeded
        | StatusKind::MountFail => StatusClass::Resource,
        StatusKind::MultiMounted
        | StatusKind::ControllerExists
        | StatusKind::ValueExists
        | StatusKind::ValueNotExist
        | StatusKind::Invalid
        | StatusKind::Fail
        | StatusKind::NamespacePaths
        | StatusKind::NamespaceController
        | StatusKind::MountNamespace => StatusClass::Validation,
        StatusKind::NotEqual | StatusKind::ControllerNotEqual => StatusClass::Comparison,
        StatusKind::ParseFail | StatusKind::NoRules | StatusKind::ConfigParseFail =>
            StatusClass::Parse,
        StatusKind::Other | StatusKind::Unlisted => StatusClass::Opaque,
    }
}

/// Gives the family of a kind.
pub fn class_of(kind: StatusKind) -> (class: StatusClass)
    ensures
        class == spec_class_of(kind),
{
    match kind {
        StatusKind::Success | StatusKind::Sentinel | StatusKind::Eof => StatusClass::Benign,
        StatusKind::NotCompiled
        | StatusKind::NotMounted
        | StatusKind::NotExist
        | StatusKind::SubsysNotMounted
        | StatusKind::NotInitialized => StatusClass::Precondition,
        StatusKind::NotOwner | StatusKind::NotAllowed => StatusClass::Permission,
        StatusKind::NotCreated
        | StatusKind::ControllerCreateFailed
        | StatusKind::MaxValuesExceeded
        | StatusKind::MountFail => StatusClass::Resource,
        StatusKind::MultiMounted
        | StatusKind::ControllerExists
        | StatusKind::ValueExists
        | StatusKind::ValueNotExist
        | StatusKind::Invalid
        | StatusKind::Fail
        | StatusKind::NamespacePaths
        | StatusKind::NamespaceController
        | StatusKind::MountNamespace => StatusClass::Validation,
        StatusKind::NotEqual | StatusKind::ControllerNotEqual => StatusClass::Comparison,
        StatusKind::ParseFail | StatusKind::NoRules | StatusKind::ConfigParseFail =>
            StatusClass::Parse,
        StatusKind::Other | StatusKind::Unlisted => StatusClass::Opaque,
    }
}

/// An error as this crate reports it.
#[derive(Clone, Copy, Debug, PartialEq, Eq, Structural)]
pub enum CGroupError {
    /// The subsystem answered with this status.
    Status { code: i32 },
    /// A text holds a NUL character and cannot be handed to the subsystem.
    InteriorNul,
    /// A parameter that must say something is empty or blank.
    BlankParameter,
    /// The call does not fit the state of its subject: a handle that was
    /// released, or a cursor that was begun before.
    OutOfTurn,
    /// A call of the operating system answered with this number, which is
    /// not zero.
    Os { code: i32 },
}

impl CGroupError {
    /// The status that the subsystem gave, if the error came from there.
    pub open spec fn spec_code(self) -> Option<i32> {
        match self {
            CGroupError::Status { code } => Some(code),
            _ => None,
        }
    }

    /// The kind of the error; an error made on this side of the boundary,
    /// before any call, counts as an invalid argument.
    pub open spec fn spec_kind(self) -> StatusKind {
        match self {
            CGroupError::Status { code } => spec_kind_of(code),
            _ => StatusKind::Invalid,
        }
    }

    /// The status that the subsystem gave, if the error came from there.
    pub fn code(&self) -> (code: Option<i32>)
        ensures
            code == self.spec_code(),
    {
        match self {
            CGroupError::Status { code } => Some(*code),
            _ => None,
        }
    }

    /// The kind of the error.
    pub fn kind(&self) -> (kind: StatusKind)
        ensures
            kind == self.spec_kind(),
    {
        match self {
            CGroupError::Status { code } => kind_of(*code),
            _ => StatusKind::Invalid,
        }
    }

    /// The text that describes the error. For a status it is the text that
    /// the subsystem's own table holds for it, which the caller has looked up
    /// and hands in; the catch-all status has no entry there and gets a text
    /// made here. The other errors never reached the subsystem and are
    /// described here too.
    pub fn message(&self, table_text: &str) -> (text: String)
        ensures
            text@ == spec_message(*self, table_text@),
    {
        match self {
            CGroupError::Status { code } => {
                if *code == C_EC_OTHER {
                    String::from_str("Unknown Error = 50016")
                } else {
                    String::from_str(table_text)
                }
            },
            CGroupError::InteriorNul => String::from_str("text holds a NUL character"),
            CGroupError::BlankParameter => String::from_str("parameter is blank"),
            CGroupError::OutOfTurn => String::from_str("handle is released or cursor was begun"),
            CGroupError::Os { .. } => String::from_str("system call failed"),
        }
    }
}

/// The text of an error, given the entry of the subsystem's table for its
/// status.
pub open spec fn spec_message(error: CGroupError, table_text: Seq<char>) -> Seq<char> {
    match error {
        CGroupError::Status { code } => if code == C_EC_OTHER {
            "Unknown Error = 50016"@
        } else {
            table_text
        },
        CGroupError::InteriorNul => "text holds a NUL character"@,
        CGroupError::BlankParameter => "parameter is blank"@,
        CGroupError::OutOfTurn => "handle is released or cursor was begun"@,
        CGroupError::Os { .. } => "system call failed"@,
    }
}

/// Wraps a status as an error value.
pub fn cg_get_error(code: i32) -> (error: CGroupError)
    ensures
        error == (CGroupError::Status { code }),
{
    CGroupError::Status { code }
}

/// The status as a plain number.
pub fn cg_convert_c_error(code: i32) -> (number: i32)
    ensures
        number == code,
{
    code
}

/// What a status means for a call that returns nothing else: success and the
/// two marks are no error, every other status is the error of that status.
pub open spec fn spec_cg_result(status: i32) -> Result<(), CGroupError> {
    if spec_is_failure(status) {
        Err(CGroupError::Status { code: status })
    } else {
        Ok(())
    }
}

/// Translates the status of a finished call.
pub fn cg_result(status: i32) -> (outcome: Result<(), CGroupError>)
    ensures
        outcome == spec_cg_result(status),
{
    if is_failure(status) {
        Err(cg_get_error(status))
    } else {
        Ok(())
    }
}

/// The text for the status that the subsystem recorded last: `Success` when
/// it recorded none, else the entry of its table, which the caller hands in.
pub fn cg_get_last_error_str(last_status: i32, table_text: &str) -> (text: String)
    ensures
        text@ == (if last_status == C_GROUP_SUCCESS {
            "Success"@
        } else {
            table_text@
        }),
{
    if last_status == C_GROUP_SUCCESS {
        String::from_str("Success")
    } else {
        String::from_str(table_text)
    }
}

/// No mark is a failure, success is none, and a failure is never benign.
pub proof fn lemma_marks_are_no_failures(code: i32)
    ensures
        spec_is_sentinel(code) ==> !spec_is_failure(code),
        !spec_is_failure(C_GROUP_SUCCESS),
        spec_is_failure(code) <==> spec_class_of(spec_kind_of(code)) != StatusClass::Benign,
        spec_cg_result(code) is Err <==> spec_is_failure(code),
{
}

/// Each listed code has a kind of its own: two codes of one kind are the
/// same code, unless neither is listed.
pub proof fn lemma_kind_is_injective(a: i32, b: i32)
    requires
        spec_kind_of(a) == spec_kind_of(b),
        spec_kind_of(a) != StatusKind::Unlisted,
    ensures
        a == b,
{
}

} // verus!
