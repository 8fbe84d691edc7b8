//! Conversions from the errors of the kernel's other subsystems. None of them
//! is expected under correct operation, so each becomes an unclassified fault
//! that keeps the source error's description.

use std::fmt::Write;
use vstd::prelude::*;
use vstd::string::to_string_from_display_ensures;
use crate::error::ExecutionError;

verus! {

#[verifier::external_type_specification]
#[verifier::external_body]
pub struct ExCidError(cid::Error);

#[verifier::external_type_specification]
#[verifier::external_body]
pub struct ExAddressError(fvm_shared::address::Error);

#[verifier::external_type_specification]
#[verifier::external_body]
pub struct ExEncodingError(fvm_ipld_encoding::Error);

#[verifier::external_type_specification]
#[verifier::external_body]
pub struct ExHamtError(ipld_hamt::Error);

/// Relies on the `Debug` impl that `ipld_hamt::Error` derives, to describe
/// the error. Nothing is assumed of the text: an error it boxes prints itself
/// as it likes. A formatting error leaves the text as far as it got.
#[verifier::external_body]
fn hamt_error_text(e: &ipld_hamt::Error) -> (r: String) {
    let mut text = String::new();
    let _ = write!(text, "{:?}", e);
    text
}

impl From<cid::Error> for ExecutionError {
    fn from(e: cid::Error) -> (r: ExecutionError)
        ensures
            r is SystemError,
            to_string_from_display_ensures::<cid::Error>(&e, r->SystemError_0),
    {
        ExecutionError::SystemError(e.to_string())
    }
}

impl vstd::std_specs::convert::FromSpecImpl<cid::Error> for ExecutionError {
    open spec fn obeys_from_spec() -> bool {
        false
    }

    open spec fn from_spec(e: cid::Error) -> ExecutionError {
        arbitrary()
    }
}

impl From<fvm_shared::address::Error> for ExecutionError {
    fn from(e: fvm_shared::address::Error) -> (r: ExecutionError)
        ensures
            r is SystemError,
            to_string_from_display_ensures::<fvm_shared::address::Error>(&e, r->SystemError_0),
    {
        ExecutionError::SystemError(e.to_string())
    }
}

impl vstd::std_specs::convert::FromSpecImpl<fvm_shared::address::Error> for ExecutionError {
    open spec fn obeys_from_spec() -> bool {
        false
    }

    open spec fn from_spec(e: fvm_shared::address::Error) -> ExecutionError {
        arbitrary()
    }
}

impl From<fvm_ipld_encoding::Error> for ExecutionError {
    fn from(e: fvm_ipld_encoding::Error) -> (r: ExecutionError)
        ensures
            r is SystemError,
            to_string_from_display_ensures::<fvm_ipld_encoding::Error>(&e, r->SystemError_0),
    {
        ExecutionError::SystemError(e.to_string())
    }
}

impl vstd::std_specs::convert::FromSpecImpl<fvm_ipld_encoding::Error> for ExecutionError {
    open spec fn obeys_from_spec() -> bool {
        false
    }

    open spec fn from_spec(e: fvm_ipld_encoding::Error) -> ExecutionError {
        arbitrary()
    }
}

impl From<ipld_hamt::Error> for ExecutionError {
    fn from(e: ipld_hamt::Error) -> (r: ExecutionError)
        ensures
            r is SystemError,
    {
        ExecutionError::SystemError(hamt_error_text(&e))
    }
}

impl vstd::std_specs::convert::FromSpecImpl<ipld_hamt::Error> for ExecutionError {
    open spec fn obeys_from_spec() -> bool {
        false
    }

    open spec fn from_spec(e: ipld_hamt::Error) -> ExecutionError {
        arbitrary()
    }
}

} // verus!
