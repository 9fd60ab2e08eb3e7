//! Scalar-function evaluation layer for byte-sequence inspection functions.
//!
//! A column value arrives as a nullable byte sequence (`Option<Bytes>`): `None`
//! is SQL NULL, `Some` of an empty vector is the empty string, which is a
//! distinct value. Every function of this family maps such a nullable input to
//! a nullable 64-bit integer, propagating NULL and nothing else: a present
//! input always yields a present result, and no input is an error.

use vstd::prelude::*;

pub mod dispatch;
pub mod impl_string;

verus! {

/// A column value in its encoded-on-the-wire form: an ordered sequence of
/// 8-bit units, kept exactly as stored, with no decoding or normalization.
pub type Bytes = Vec<u8>;

/// The error type of a scalar-function call. The byte-inspection family is
/// total over its input domain, so no function of this crate ever constructs
/// a value of it; it only keeps the calling convention uniform with scalar
/// functions that can fail.
#[derive(Debug, Clone, Copy, PartialEq, Eq)]
pub struct EvalError;

/// The mathematical value of a nullable byte-sequence argument: NULL stays
/// NULL, a present vector becomes the sequence of its bytes.
pub open spec fn nullable_view(arg: Option<Bytes>) -> Option<Seq<u8>> {
    match arg {
        Option::None => Option::None,
        Option::Some(b) => Option::Some(b@),
    }
}

/// The mathematical value of a nullable 64-bit integer result.
pub open spec fn int_view(r: Option<i64>) -> Option<int> {
    match r {
        Option::None => Option::None,
        Option::Some(v) => Option::Some(v as int),
    }
}

} // verus!
