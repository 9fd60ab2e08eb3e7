//! Dispatch by function signature: the closed enumeration of function codes
//! this crate implements, the mapping from a code to its function, and the
//! laws that hold of the whole family.

use vstd::prelude::*;

use crate::Bytes;
use crate::EvalError;
use crate::int_view;
use crate::nullable_view;
use crate::impl_string::ascii;
use crate::impl_string::length;
use crate::impl_string::spec_ascii;
use crate::impl_string::spec_length;

verus! {

/// The stable signature identifier of each scalar function this crate
/// implements. A dispatcher addresses a function by this code.
#[derive(Debug, Clone, Copy, PartialEq, Eq)]
pub enum ScalarFuncSig {
    Length,
    Ascii,
}

/// What `evaluate` returns for each function code: the code selects the
/// function, and the function's own value semantics apply.
pub open spec fn spec_evaluate(sig: ScalarFuncSig, arg: Option<Seq<u8>>) -> Option<int> {
    match sig {
        ScalarFuncSig::Length => spec_length(arg),
        ScalarFuncSig::Ascii => spec_ascii(arg),
    }
}

/// Evaluate the function named by `sig` on one nullable byte-sequence
/// argument. Total: every input yields `Ok`.
pub fn evaluate(sig: ScalarFuncSig, arg: &Option<Bytes>) -> (r: Result<
    Option<i64>,
    EvalError,
>)
    ensures
        r matches Ok(o) && int_view(o) == spec_evaluate(sig, nullable_view(*arg)),
{
    match sig {
        ScalarFuncSig::Length => length(arg),
        ScalarFuncSig::Ascii => ascii(arg),
    }
}

/// NULL propagation, both ways: for every function of the family, the result
/// is NULL if and only if the argument is NULL. No computed value, zero
/// included, is ever conflated with NULL.
pub proof fn lemma_null_propagation(sig: ScalarFuncSig, arg: Option<Seq<u8>>)
    ensures
        spec_evaluate(sig, arg) is None <==> arg is None,
{
}

/// Empty-input determinism: every function of the family maps the present
/// empty sequence to the present integer zero, never to NULL.
pub proof fn lemma_empty_input(sig: ScalarFuncSig)
    ensures
        spec_evaluate(sig, Option::Some(Seq::<u8>::empty())) == Option::Some(0int),
{
}

/// Byte-count fidelity: for any present byte sequence whose unit count fits
/// the 64-bit signed result type, `length` returns exactly that count,
/// independent of how many logical characters the units encode.
pub proof fn lemma_byte_count_fidelity(s: Seq<u8>)
    requires
        s.len() <= i64::MAX,
    ensures
        spec_evaluate(ScalarFuncSig::Length, Option::Some(s)) == Option::Some(s.len() as int),
{
}

/// First-byte fidelity: for any present non-empty byte sequence, `ascii`
/// returns the numeric value of the first 8-bit unit, which lies in 0 to 255.
pub proof fn lemma_first_byte_fidelity(s: Seq<u8>)
    requires
        s.len() > 0,
    ensures
        spec_evaluate(ScalarFuncSig::Ascii, Option::Some(s)) == Option::Some(s[0] as int),
        0 <= s[0] <= 255,
{
}

/// Purity: any two results that meet `evaluate`'s contract for the same
/// function code and the same argument are identical, so re-evaluation, in
/// any order and on any row, always reproduces the same output.
pub proof fn lemma_purity(
    sig: ScalarFuncSig,
    arg: Option<Seq<u8>>,
    r1: Option<i64>,
    r2: Option<i64>,
)
    requires
        int_view(r1) == spec_evaluate(sig, arg),
        int_view(r2) == spec_evaluate(sig, arg),
    ensures
        r1 == r2,
{
}

} // verus!
