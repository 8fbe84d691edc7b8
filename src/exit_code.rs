//! Outcome codes of an execution, as plain numbers.

use vstd::prelude::*;

verus! {

/// Execution succeeded.
pub const OK: u32 = 0;

/// A module behaved in a way the system forbids.
pub const SYS_ERR_ILLEGAL_ACTOR: u32 = 9;

/// A host call was given an argument it cannot accept.
pub const SYS_ERR_ILLEGAL_ARGUMENT: u32 = 10;

/// The code of every fault that no layer has classified: unexpected and fatal.
pub const ERR_PLACEHOLDER: u32 = 1000;

/// The outcome code of an execution.
#[derive(PartialEq, Eq, Structural, Clone, Copy, Debug)]
pub struct ExitCode {
    pub value: u32,
}

impl ExitCode {
    pub fn new(value: u32) -> (r: ExitCode)
        ensures
            r.value == value,
    {
        ExitCode { value }
    }

    pub fn value(self) -> (r: u32)
        ensures
            r == self.value,
    {
        self.value
    }

    pub open spec fn placeholder() -> ExitCode {
        ExitCode { value: ERR_PLACEHOLDER }
    }

    /// The shared code of unclassified, fatal faults.
    pub fn err_placeholder() -> (r: ExitCode)
        ensures
            r == ExitCode::placeholder(),
    {
        ExitCode { value: ERR_PLACEHOLDER }
    }

    pub fn sys_err_illegal_argument() -> (r: ExitCode)
        ensures
            r.value == SYS_ERR_ILLEGAL_ARGUMENT,
    {
        ExitCode { value: SYS_ERR_ILLEGAL_ARGUMENT }
    }

    pub fn sys_err_illegal_actor() -> (r: ExitCode)
        ensures
            r.value == SYS_ERR_ILLEGAL_ACTOR,
    {
        ExitCode { value: SYS_ERR_ILLEGAL_ACTOR }
    }

    pub fn is_success(self) -> (r: bool)
        ensures
            r == (self.value == OK),
    {
        self.value == OK
    }
}

} // verus!
