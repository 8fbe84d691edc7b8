//! Error signalling for an actor-execution kernel: the error taxonomy and its
//! outcome codes, the conversions from the errors of the kernel's subsystems,
//! and the carrier that moves a kernel error through the bytecode engine's
//! opaque failure channel and back.

pub mod exit_code;
pub mod error;
pub mod blocks;
pub mod adapters;
pub mod boundary;
