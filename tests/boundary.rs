use fvm_kernel_error::blocks::BlockError;
use fvm_kernel_error::boundary::{recover, EngineFailure, ErrorEnvelope};
use fvm_kernel_error::error::{ActorError, ExecutionError, SyscallError};
use fvm_kernel_error::exit_code::{ExitCode, ERR_PLACEHOLDER};

fn samples() -> Vec<ExecutionError> {
    vec![
        ExecutionError::Actor(ActorError::new(ExitCode::new(16), "actor said no".to_string())),
        ExecutionError::Syscall(SyscallError("advised".to_string(), Some(ExitCode::new(7)))),
        ExecutionError::Syscall(SyscallError("unadvised".to_string(), None)),
        ExecutionError::system("internal".to_string()),
    ]
}

#[test]
fn round_trip_keeps_every_error() {
    for e in samples() {
        let mut f = EngineFailure::from_error(e.clone());
        assert_eq!(f.description(), "wrapping error");
        assert_eq!(f.cause_count(), 1);
        let r = ExecutionError::from_failure(&mut f);
        assert_eq!(r, e);
        assert_eq!(r.exit_code(), e.exit_code());
        assert_eq!(r.message(), e.message());
    }
}

#[test]
fn round_trip_through_engine_context() {
    for e in samples() {
        let mut f = EngineFailure::from_error(e.clone())
            .with_context("wasm trap: host call failed".to_string())
            .with_context("outer".to_string());
        assert_eq!(f.description(), "outer");
        assert_eq!(f.cause_count(), 3);
        assert_eq!(ExecutionError::from_failure(&mut f), e);
    }
}

#[test]
fn second_extraction_gives_system_fault() {
    let e = ExecutionError::Actor(ActorError::new(ExitCode::new(18), "forbidden".to_string()));
    let mut f = EngineFailure::from_error(e.clone()).with_context("trap".to_string());
    assert_eq!(ExecutionError::from_failure(&mut f), e);
    let again = ExecutionError::from_failure(&mut f);
    assert_ne!(again, e);
    assert!(again.is_system());
    assert_eq!(again.message(), "trap");
    assert_eq!(again.exit_code().value(), ERR_PLACEHOLDER);
}

#[test]
fn foreign_failure_degrades_to_system_fault() {
    let mut f = EngineFailure::foreign("out of fuel".to_string());
    let r = ExecutionError::from_failure(&mut f);
    assert_eq!(r, ExecutionError::system("out of fuel".to_string()));
    let mut g = EngineFailure::foreign("inner".to_string()).with_context("outer".to_string());
    let r = ExecutionError::from_failure(&mut g);
    assert!(r.is_system());
    assert_eq!(r.message(), "outer");
}

#[test]
fn envelope_is_extract_once() {
    let e = ExecutionError::system("once".to_string());
    let mut env = ErrorEnvelope::wrap(e.clone());
    assert!(!env.is_empty());
    assert_eq!(env.take(), Some(e));
    assert!(env.is_empty());
    assert_eq!(env.take(), None);
}

#[test]
fn recover_prefers_the_extracted_error() {
    let e = ExecutionError::Syscall(SyscallError("x".to_string(), None));
    assert_eq!(recover(Some(e.clone()), "desc".to_string()), e);
    assert_eq!(recover(None, "desc".to_string()), ExecutionError::system("desc".to_string()));
}

#[test]
fn syscall_fault_end_to_end() {
    let raised = ExecutionError::Syscall(SyscallError::from("bad argument".to_string()));
    let mut f = EngineFailure::from_error(raised).with_context("host call failed".to_string());
    let r = ExecutionError::from_failure(&mut f);
    assert_eq!(r.exit_code().value(), ERR_PLACEHOLDER);
    assert_eq!(r.message(), "bad argument");
}

#[test]
fn missing_block_end_to_end() {
    let raised = ExecutionError::from(BlockError::MissingState("bafy...".to_string()));
    let mut f = EngineFailure::from_error(raised);
    let r = ExecutionError::from_failure(&mut f);
    assert!(r.is_system());
    assert!(r.message().contains("bafy..."));
    assert_eq!(r.exit_code().value(), ERR_PLACEHOLDER);
}

#[test]
fn conversions_through_the_failure_model() {
    for e in samples() {
        let f: EngineFailure = e.clone().into();
        let r: ExecutionError = f.with_context("trap".to_string()).into();
        assert_eq!(r, e);
    }
    let r: ExecutionError = EngineFailure::foreign("stack overflow".to_string()).into();
    assert_eq!(r, ExecutionError::system("stack overflow".to_string()));
}
