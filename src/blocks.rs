//! Faults of the kernel's block store, and how each is classified.

use vstd::prelude::*;
use crate::error::{ActorError, ExecutionError};
use crate::exit_code::{ExitCode, SYS_ERR_ILLEGAL_ACTOR, SYS_ERR_ILLEGAL_ARGUMENT};

verus! {

/// A fault of the block store.
#[derive(Clone, Debug, PartialEq, Eq)]
pub enum BlockError {
    /// The block handle does not exist, or the caller cannot reach it.
    Unreachable(u32),
    /// The block handle is malformed.
    InvalidHandle(u32),
    /// A multihash was asked for with a code and length that are not allowed.
    InvalidMultihashSpec { code: u64, length: u32 },
    /// The codec is unknown or forbidden.
    InvalidCodec(u64),
    /// The module has written more blocks than it may.
    TooManyBlocks,
    /// The durable store has no block for the key, given in its textual form.
    MissingState(String),
}

/// The decimal digits of a number, most significant first, without sign or
/// leading zeros.
pub open spec fn decimal_digits(n: nat) -> Seq<char>
    decreases n,
{
    let digit = seq!['0', '1', '2', '3', '4', '5', '6', '7', '8', '9'][(n % 10) as int];
    if n < 10 {
        seq![digit]
    } else {
        decimal_digits(n / 10).push(digit)
    }
}

/// The decimal digit for a number below ten.
fn digit_text(d: u64) -> (r: &'static str)
    requires
        d < 10,
    ensures
        r@ == seq![seq!['0', '1', '2', '3', '4', '5', '6', '7', '8', '9'][d as int]],
{
    match d {
        0 => {
            proof {
                reveal_strlit("0");
            }
            "0"
        },
        1 => {
            proof {
                reveal_strlit("1");
            }
            "1"
        },
        2 => {
            proof {
                reveal_strlit("2");
            }
            "2"
        },
        3 => {
            proof {
                reveal_strlit("3");
            }
            "3"
        },
        4 => {
            proof {
                reveal_strlit("4");
            }
            "4"
        },
        5 => {
            proof {
                reveal_strlit("5");
            }
            "5"
        },
        6 => {
            proof {
                reveal_strlit("6");
            }
            "6"
        },
        7 => {
            proof {
                reveal_strlit("7");
            }
            "7"
        },
        8 => {
            proof {
                reveal_strlit("8");
            }
            "8"
        },
        _ => {
            proof {
                reveal_strlit("9");
            }
            "9"
        },
    }
}

/// A number written in decimal digits.
fn decimal(n: u64) -> (r: String)
    ensures
        r@ == decimal_digits(n as nat),
    decreases n,
{
    if n < 10 {
        String::from_str(digit_text(n))
    } else {
        let mut s = decimal(n / 10);
        s.append(digit_text(n % 10));
        s
    }
}

impl BlockError {
    /// The fault lies with a reference or parameter that the calling module
    /// passed.
    pub open spec fn is_illegal_argument(self) -> bool {
        self is Unreachable || self is InvalidHandle || self is InvalidMultihashSpec
            || self is InvalidCodec
    }

    pub open spec fn spec_description(self) -> Seq<char> {
        match self {
            BlockError::Unreachable(h) => "block handle "@ + decimal_digits(h as nat)
                + " does not exist, or is not reachable"@,
            BlockError::InvalidHandle(h) => "invalid block handle "@ + decimal_digits(h as nat),
            BlockError::InvalidMultihashSpec { code, length } => "invalid multihash length "@
                + decimal_digits(length as nat) + " for code "@ + decimal_digits(code as nat),
            BlockError::InvalidCodec(c) => "invalid or forbidden ipld codec "@ + decimal_digits(
                c as nat,
            ),
            BlockError::TooManyBlocks => "too many blocks have been written"@,
            BlockError::MissingState(k) => "block "@ + k@ + " is missing"@,
        }
    }

    /// The text that describes the fault.
    pub fn description(&self) -> (r: String)
        ensures
            r@ == self.spec_description(),
    {
        match self {
            BlockError::Unreachable(h) => {
                let mut s = String::from_str("block handle ");
                s.append(decimal(*h as u64).as_str());
                s.append(" does not exist, or is not reachable");
                s
            },
            BlockError::InvalidHandle(h) => {
                let mut s = String::from_str("invalid block handle ");
                s.append(decimal(*h as u64).as_str());
                s
            },
            BlockError::InvalidMultihashSpec { code, length } => {
                let mut s = String::from_str("invalid multihash length ");
                s.append(decimal(*length as u64).as_str());
                s.append(" for code ");
                s.append(decimal(*code).as_str());
                s
            },
            BlockError::InvalidCodec(c) => {
                let mut s = String::from_str("invalid or forbidden ipld codec ");
                s.append(decimal(*c).as_str());
                s
            },
            BlockError::TooManyBlocks => String::from_str("too many blocks have been written"),
            BlockError::MissingState(k) => {
                let mut s = String::from_str("block ");
                s.append(k.as_str());
                s.append(" is missing");
                s
            },
        }
    }
}

/// The outcome code that a block-store fault is given, if it is attributed to
/// the calling module: a malformed reference or parameter is an illegal
/// argument, and writing too many blocks is illegal actor behaviour. A block
/// missing from durable storage is a fault of the host itself and gets none.
pub open spec fn block_error_code(e: BlockError) -> Option<u32> {
    match e {
        BlockError::TooManyBlocks => Some(SYS_ERR_ILLEGAL_ACTOR),
        BlockError::MissingState(_) => None,
        _ => Some(SYS_ERR_ILLEGAL_ARGUMENT),
    }
}

/// The message of the kernel error that a block-store fault becomes: the
/// fault's description, or for a missing block a text that names its key.
pub open spec fn block_error_message(e: BlockError) -> Seq<char> {
    match e {
        BlockError::MissingState(k) => "missing block: "@ + k@,
        _ => e.spec_description(),
    }
}

/// What a block-store fault is classified as: an actor fault with the code
/// of `block_error_code`, or an unclassified fault where there is none.
pub open spec fn block_error_classified(e: BlockError, r: ExecutionError) -> bool {
    &&& r.spec_message() == block_error_message(e)
    &&& match block_error_code(e) {
        Some(c) => r is Actor && r.spec_exit_code() == (ExitCode { value: c }),
        None => r is SystemError,
    }
}

impl ExecutionError {
    pub fn from_block_error(e: BlockError) -> (r: ExecutionError)
        ensures
            block_error_classified(e, r),
    {
        match e {
            BlockError::TooManyBlocks => {
                // Not quite the right code, but there is no better one for this.
                ExecutionError::Actor(
                    ActorError::new(ExitCode::sys_err_illegal_actor(), e.description()),
                )
            },
            BlockError::MissingState(k) => {
                let mut s = String::from_str("missing block: ");
                s.append(k.as_str());
                ExecutionError::SystemError(s)
            },
            _ => ExecutionError::Actor(
                ActorError::new(ExitCode::sys_err_illegal_argument(), e.description()),
            ),
        }
    }
}

impl From<BlockError> for ExecutionError {
    fn from(e: BlockError) -> (r: ExecutionError)
        ensures
            block_error_classified(e, r),
    {
        ExecutionError::from_block_error(e)
    }
}

impl vstd::std_specs::convert::FromSpecImpl<BlockError> for ExecutionError {
    open spec fn obeys_from_spec() -> bool {
        false
    }

    open spec fn from_spec(e: BlockError) -> ExecutionError {
        arbitrary()
    }
}

/// How the block-store faults are dispatched: the four faults of a malformed
/// reference or parameter become actor faults with the illegal-argument code,
/// too many blocks an actor fault with the illegal-actor code, and a missing
/// block an unclassified fault whose message holds the block's key.
pub proof fn lemma_block_dispatch(e: BlockError, r: ExecutionError)
    requires
        block_error_classified(e, r),
    ensures
        e.is_illegal_argument() ==> r is Actor && r.spec_exit_code().value
            == SYS_ERR_ILLEGAL_ARGUMENT,
        e is TooManyBlocks ==> r is Actor && r.spec_exit_code().value == SYS_ERR_ILLEGAL_ACTOR,
        e is MissingState ==> r is SystemError && r.spec_exit_code() == ExitCode::placeholder()
            && exists|p: int|
            0 <= p && p + e->MissingState_0@.len() <= r.spec_message().len()
                && #[trigger] r.spec_message().subrange(p, p + e->MissingState_0@.len())
                == e->MissingState_0@,
{
    if e is MissingState {
        let k = e->MissingState_0@;
        let p = "missing block: "@.len() as int;
        assert(r.spec_message().subrange(p, p + k.len()) =~= k);
    }
}

} // verus!
