//! Translation of the engine's raw status codes into typed results.
//!
//! The engine reports the outcome of every operation as a single unsigned
//! integer: a byte count on success, an error sentinel otherwise.  Which
//! values are sentinels is decided by the engine's own classifier, whose
//! verdict reaches this module as a plain flag; nothing here second-guesses
//! that verdict by matching magic numbers.

use vstd::prelude::*;
use crate::SafeResult;

verus! {

/// What `parse_code` returns: the raw code, wrapped as a success byte count
/// when the engine's classifier reported no error, and as an opaque failure
/// code otherwise.
pub open spec fn parse_code_spec(code: usize, engine_says_error: bool) -> SafeResult {
    if engine_says_error {
        Err(code)
    } else {
        Ok(code)
    }
}

/// Decode the engine classifier's reply: the classifier returns a C boolean,
/// where any nonzero value marks the inspected code as an error.
pub fn is_error(classifier_reply: u32) -> (r: bool)
    ensures
        r == (classifier_reply != 0),
{
    classifier_reply != 0
}

/// Parse a raw status code, given the engine classifier's verdict on it.
///
/// Returns the number of bytes written if the code represents success, or
/// the opaque error code otherwise.  Total over all inputs: every raw code
/// is wrapped, never swallowed, and the value is preserved exactly.
pub fn parse_code(code: usize, engine_says_error: bool) -> (r: SafeResult)
    ensures
        r == parse_code_spec(code, engine_says_error),
        !engine_says_error ==> r == Ok::<usize, usize>(code),
        engine_says_error ==> r == Err::<usize, usize>(code),
{
    if !engine_says_error {
        Ok(code)
    } else {
        Err(code)
    }
}

/// Result-translation law: for any raw code the engine classifies as
/// non-error the translation is `Ok(code)`, for any code classified as an
/// error it is `Err(code)`; the translation is total and exactly one of the
/// two holds for every unsigned integer input.
pub proof fn lemma_parse_code_exact(code: usize, engine_says_error: bool)
    ensures
        parse_code_spec(code, engine_says_error) is Ok <==> !engine_says_error,
        parse_code_spec(code, engine_says_error) is Ok ==> parse_code_spec(
            code,
            engine_says_error,
        )->Ok_0 == code,
        parse_code_spec(code, engine_says_error) is Err ==> parse_code_spec(
            code,
            engine_says_error,
        )->Err_0 == code,
{
}

} // verus!
