//! The two byte-sequence inspection functions: `length` (byte count) and
//! `ascii` (ordinal of the first byte). Both operate on raw 8-bit units, never
//! on decoded characters, and both propagate NULL unconditionally.

use vstd::prelude::*;

use crate::Bytes;
use crate::EvalError;
use crate::int_view;
use crate::nullable_view;

verus! {

/// The byte count of a sequence, saturated at `i64::MAX` so that a result
/// always fits the 64-bit signed output type without wrapping. Practical
/// column sizes never reach the bound, but saturation is stated rather than
/// inherited silently.
pub open spec fn saturating_len(n: nat) -> int {
    if n > i64::MAX {
        i64::MAX as int
    } else {
        n as int
    }
}

/// What `length` returns: NULL for NULL, otherwise the number of 8-bit units
/// in the sequence (not the number of characters they encode), saturated at
/// `i64::MAX`.
pub open spec fn spec_length(arg: Option<Seq<u8>>) -> Option<int> {
    match arg {
        Option::None => Option::None,
        Option::Some(s) => Option::Some(saturating_len(s.len())),
    }
}

/// What `ascii` returns: NULL for NULL, `0` for the empty sequence, otherwise
/// the numeric value of the first byte (0 to 255), not the first character's
/// codepoint.
pub open spec fn spec_ascii(arg: Option<Seq<u8>>) -> Option<int> {
    match arg {
        Option::None => Option::None,
        Option::Some(s) => Option::Some(
            if s.len() == 0 {
                0
            } else {
                s[0] as int
            },
        ),
    }
}

/// Byte length of a nullable byte sequence, as a nullable 64-bit integer.
/// Total: every input yields `Ok`, and the result is NULL exactly when the
/// input is NULL.
pub fn length(arg: &Option<Bytes>) -> (r: Result<Option<i64>, EvalError>)
    ensures
        r matches Ok(o) && int_view(o) == spec_length(nullable_view(*arg)),
{
    match arg {
        Option::None => Ok(Option::None),
        Option::Some(bytes) => {
            let n: u64 = bytes.len() as u64;
            if n > i64::MAX as u64 {
                Ok(Option::Some(i64::MAX))
            } else {
                Ok(Option::Some(n as i64))
            }
        },
    }
}

/// Ordinal of the first byte of a nullable byte sequence, as a nullable
/// 64-bit integer. Total: every input yields `Ok`; NULL propagates, the empty
/// sequence gives `0`, and otherwise the result is the raw value of the first
/// encoded byte.
pub fn ascii(arg: &Option<Bytes>) -> (r: Result<Option<i64>, EvalError>)
    ensures
        r matches Ok(o) && int_view(o) == spec_ascii(nullable_view(*arg)),
{
    match arg {
        Option::None => Ok(Option::None),
        Option::Some(bytes) => {
            if bytes.len() == 0 {
                Ok(Option::Some(0))
            } else {
                Ok(Option::Some(bytes[0] as i64))
            }
        },
    }
}

} // verus!
