//! The taxonomy of kernel errors and the outcome code of each.

use vstd::prelude::*;
use crate::exit_code::ExitCode;

verus! {

/// A fault raised by actor-level validation. It already carries its own
/// outcome code.
#[derive(Clone, Debug, PartialEq, Eq)]
pub struct ActorError {
    pub exit_code: ExitCode,
    pub msg: String,
}

impl ActorError {
    pub fn new(exit_code: ExitCode, msg: String) -> (r: ActorError)
        ensures
            r.exit_code == exit_code,
            r.msg == msg,
    {
        ActorError { exit_code, msg }
    }

    pub fn exit_code(&self) -> (r: ExitCode)
        ensures
            r == self.exit_code,
    {
        self.exit_code
    }

    pub fn msg(&self) -> (r: &str)
        ensures
            r@ == self.msg@,
    {
        self.msg.as_str()
    }
}

/// An error from a host call: a message, and optionally the outcome code that
/// the host call advises for it.
#[derive(Clone, Debug, PartialEq, Eq)]
pub struct SyscallError(pub String, pub Option<ExitCode>);

impl SyscallError {
    /// A host-call error with no advised code.
    pub fn from_message(s: String) -> (r: SyscallError)
        ensures
            r.0 == s,
            r.1 is None,
    {
        SyscallError(s, None)
    }

    /// A host-call error with no advised code, from a borrowed message.
    pub fn from_str(s: &str) -> (r: SyscallError)
        ensures
            r.0@ == s@,
            r.1 is None,
    {
        SyscallError(s.to_string(), None)
    }
}

/// Every failure that the kernel can produce.
#[derive(Clone, Debug, PartialEq, Eq)]
pub enum ExecutionError {
    /// A fault that carries its own outcome code.
    Actor(ActorError),
    /// A fault raised by a host call.
    Syscall(SyscallError),
    /// Any other fault: unexpected, unclassified and fatal. It holds the
    /// description of the underlying failure.
    SystemError(String),
}

impl ExecutionError {
    /// The outcome code of an error: the actor's own code, the code that a host
    /// call advised, and the shared placeholder code where there is neither.
    pub open spec fn spec_exit_code(self) -> ExitCode {
        match self {
            ExecutionError::Actor(e) => e.exit_code,
            ExecutionError::SystemError(_) => ExitCode::placeholder(),
            ExecutionError::Syscall(SyscallError(_, code)) => match code {
                Some(c) => c,
                None => ExitCode::placeholder(),
            },
        }
    }

    /// The text that an error carries for diagnosis.
    pub open spec fn spec_message(self) -> Seq<char> {
        match self {
            ExecutionError::Actor(e) => e.msg@,
            ExecutionError::Syscall(e) => e.0@,
            ExecutionError::SystemError(s) => s@,
        }
    }

    pub fn exit_code(&self) -> (r: ExitCode)
        ensures
            r == self.spec_exit_code(),
    {
        match self {
            ExecutionError::Actor(e) => e.exit_code(),
            ExecutionError::SystemError(_) => ExitCode::err_placeholder(),
            ExecutionError::Syscall(SyscallError(_, exit_code)) => match exit_code {
                Some(c) => *c,
                None => ExitCode::err_placeholder(),
            },
        }
    }

    pub fn message(&self) -> (r: &str)
        ensures
            r@ == self.spec_message(),
    {
        match self {
            ExecutionError::Actor(e) => e.msg(),
            ExecutionError::Syscall(e) => e.0.as_str(),
            ExecutionError::SystemError(s) => s.as_str(),
        }
    }

    /// An unclassified fault with the given description.
    pub fn system(description: String) -> (r: ExecutionError)
        ensures
            r == ExecutionError::SystemError(description),
    {
        ExecutionError::SystemError(description)
    }

    pub fn is_actor(&self) -> (r: bool)
        ensures
            r == (*self is Actor),
    {
        matches!(self, ExecutionError::Actor(_))
    }

    pub fn is_syscall(&self) -> (r: bool)
        ensures
            r == (*self is Syscall),
    {
        matches!(self, ExecutionError::Syscall(_))
    }

    pub fn is_system(&self) -> (r: bool)
        ensures
            r == (*self is SystemError),
    {
        matches!(self, ExecutionError::SystemError(_))
    }
}

impl From<ActorError> for ExecutionError {
    fn from(e: ActorError) -> (r: ExecutionError)
        ensures
            r == ExecutionError::Actor(e),
    {
        ExecutionError::Actor(e)
    }
}

impl vstd::std_specs::convert::FromSpecImpl<ActorError> for ExecutionError {
    open spec fn obeys_from_spec() -> bool {
        true
    }

    open spec fn from_spec(e: ActorError) -> ExecutionError {
        ExecutionError::Actor(e)
    }
}

impl From<SyscallError> for ExecutionError {
    fn from(e: SyscallError) -> (r: ExecutionError)
        ensures
            r == ExecutionError::Syscall(e),
    {
        ExecutionError::Syscall(e)
    }
}

impl vstd::std_specs::convert::FromSpecImpl<SyscallError> for ExecutionError {
    open spec fn obeys_from_spec() -> bool {
        true
    }

    open spec fn from_spec(e: SyscallError) -> ExecutionError {
        ExecutionError::Syscall(e)
    }
}

impl From<String> for SyscallError {
    fn from(s: String) -> (r: SyscallError)
        ensures
            r == SyscallError(s, None),
    {
        SyscallError(s, None)
    }
}

impl vstd::std_specs::convert::FromSpecImpl<String> for SyscallError {
    open spec fn obeys_from_spec() -> bool {
        true
    }

    open spec fn from_spec(s: String) -> SyscallError {
        SyscallError(s, None)
    }
}

impl From<&str> for SyscallError {
    fn from(s: &str) -> (r: SyscallError)
        ensures
            r.0@ == s@,
            r.1 is None,
    {
        SyscallError::from_str(s)
    }
}

impl vstd::std_specs::convert::FromSpecImpl<&str> for SyscallError {
    open spec fn obeys_from_spec() -> bool {
        false
    }

    open spec fn from_spec(s: &str) -> SyscallError {
        arbitrary()
    }
}

/// Every error has exactly one outcome code: the code an actor fault stores,
/// the code a host call advised, or else the shared placeholder code.
pub proof fn lemma_exit_code_total(e: ExecutionError)
    ensures
        e is Actor ==> e.spec_exit_code() == e->Actor_0.exit_code,
        e is Syscall && e->Syscall_0.1 is Some ==> e.spec_exit_code() == e->Syscall_0.1->0,
        e is Syscall && e->Syscall_0.1 is None ==> e.spec_exit_code() == ExitCode::placeholder(),
        e is SystemError ==> e.spec_exit_code() == ExitCode::placeholder(),
{
}

/// A code advised by a host call wins; without one, a host-call error gets
/// the placeholder code.
pub proof fn lemma_syscall_precedence(msg: String, advised: Option<ExitCode>)
    ensures
        ExecutionError::Syscall(SyscallError(msg, advised)).spec_exit_code() == match advised {
            Some(c) => c,
            None => ExitCode::placeholder(),
        },
{
}

/// An actor fault's outcome code is exactly the code it stores, whatever that
/// code is.
pub proof fn lemma_actor_delegation(code: ExitCode, msg: String)
    ensures
        ExecutionError::Actor(ActorError { exit_code: code, msg }).spec_exit_code() == code,
{
}

} // verus!
