use fvm_kernel_error::error::{ActorError, ExecutionError, SyscallError};
use fvm_kernel_error::exit_code::{
    ExitCode, ERR_PLACEHOLDER, SYS_ERR_ILLEGAL_ACTOR, SYS_ERR_ILLEGAL_ARGUMENT,
};

#[test]
fn actor_fault_keeps_its_own_code() {
    for value in [0u32, 1, 9, 10, 16, 999, 1000, u32::MAX] {
        let e = ExecutionError::Actor(ActorError::new(ExitCode::new(value), "boom".to_string()));
        assert_eq!(e.exit_code().value(), value);
        assert_eq!(e.message(), "boom");
        assert!(e.is_actor());
    }
}

#[test]
fn syscall_with_advised_code_uses_it() {
    let e = ExecutionError::Syscall(SyscallError("bad".to_string(), Some(ExitCode::new(17))));
    assert_eq!(e.exit_code(), ExitCode::new(17));
    assert!(e.is_syscall());
}

#[test]
fn syscall_without_advised_code_is_placeholder() {
    let e = ExecutionError::Syscall(SyscallError("bad".to_string(), None));
    assert_eq!(e.exit_code().value(), ERR_PLACEHOLDER);
    assert_eq!(e.exit_code().value(), 1000);
}

#[test]
fn system_fault_is_placeholder() {
    let e = ExecutionError::system("disk on fire".to_string());
    assert_eq!(e.exit_code(), ExitCode::err_placeholder());
    assert_eq!(e.message(), "disk on fire");
    assert!(e.is_system());
    assert!(!e.is_actor());
    assert!(!e.is_syscall());
}

#[test]
fn named_codes_have_their_values() {
    assert_eq!(ExitCode::sys_err_illegal_argument().value(), SYS_ERR_ILLEGAL_ARGUMENT);
    assert_eq!(ExitCode::sys_err_illegal_argument().value(), 10);
    assert_eq!(ExitCode::sys_err_illegal_actor().value(), SYS_ERR_ILLEGAL_ACTOR);
    assert_eq!(ExitCode::sys_err_illegal_actor().value(), 9);
    assert!(ExitCode::new(0).is_success());
    assert!(!ExitCode::new(1).is_success());
}

#[test]
fn syscall_error_from_messages() {
    let a = SyscallError::from("plain".to_string());
    assert_eq!(a, SyscallError("plain".to_string(), None));
    let b = SyscallError::from_str("borrowed");
    assert_eq!(b.0, "borrowed");
    assert_eq!(b.1, None);
    let c = SyscallError::from_message("owned".to_string());
    assert_eq!(c.1, None);
}

#[test]
fn conversions_into_the_taxonomy() {
    let a: ExecutionError = ActorError::new(ExitCode::new(3), "x".to_string()).into();
    assert!(a.is_actor());
    assert_eq!(a.exit_code().value(), 3);
    let s: ExecutionError = SyscallError("y".to_string(), None).into();
    assert!(s.is_syscall());
    assert_eq!(s.message(), "y");
}

#[test]
fn syscall_error_from_borrowed_message() {
    let e = SyscallError::from("bad argument");
    assert_eq!(e, SyscallError("bad argument".to_string(), None));
    let x: ExecutionError = e.into();
    assert_eq!(x.exit_code().value(), ERR_PLACEHOLDER);
}
