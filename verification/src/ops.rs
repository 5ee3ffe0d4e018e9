//! Completion of a training or finalize operation: route the engine's raw
//! status code through the result translator and commit the output buffer.
//!
//! Both operations share this protocol exactly.  The engine is invoked once
//! by the surrounding application, which hands back the raw status code and
//! the engine classifier's verdict on it; everything decided about that
//! reply — translation, capacity check, commitment — happens here, verified.

use vstd::prelude::*;
use crate::SafeResult;
use crate::buffer::OutBuffer;
use crate::result::is_error;
use crate::result::parse_code;
use crate::result::parse_code_spec;

verus! {

/// The outcome of an operation, as a function of the output region's
/// capacity, the raw status code, and the classifier's reply.  A code the
/// classifier marks as an error is a failure; a success report is accepted
/// only up to the capacity that was negotiated — the engine never reports
/// more, and a larger count could not describe the written region — so
/// anything beyond it is surfaced as a failure rather than committed.
pub open spec fn training_outcome(capacity: nat, code: usize, classifier_reply: u32) -> SafeResult {
    if classifier_reply != 0 {
        Err(code)
    } else if code <= capacity {
        Ok(code)
    } else {
        Err(code)
    }
}

/// Apply the engine's reply to the negotiated output buffer.
///
/// On success the buffer's committed length becomes exactly the byte count
/// the engine reported; on failure nothing is committed.  The buffer's bytes
/// — which the engine has already filled — are never touched, and the raw
/// code is preserved verbatim in either arm of the result.
pub fn apply_engine_result(out: &mut OutBuffer, code: usize, classifier_reply: u32) -> (r:
    SafeResult)
    ensures
        r == training_outcome(old(out).capacity_spec(), code, classifier_reply),
        final(out).bytes() == old(out).bytes(),
        r is Ok <==> classifier_reply == 0 && code <= old(out).capacity_spec(),
        r is Ok ==> r->Ok_0 == code && final(out).committed() == code && final(out).wf(),
        r is Err ==> r->Err_0 == code && final(out).committed() == old(out).committed(),
        code <= old(out).capacity_spec() ==> r == parse_code_spec(
            code,
            classifier_reply != 0,
        ),
{
    let capacity = out.capacity();
    let engine_says_error = is_error(classifier_reply);
    match parse_code(code, engine_says_error) {
        Ok(written) => {
            if written <= capacity {
                out.commit(written);
                Ok(written)
            } else {
                Err(written)
            }
        },
        Err(failure) => Err(failure),
    }
}

/// Commitment-correctness law: whenever the outcome of an operation is a
/// success, the reported byte count equals the committed length and never
/// exceeds the capacity the output buffer was negotiated with.
pub proof fn lemma_commitment_correct(capacity: nat, code: usize, classifier_reply: u32)
    ensures
        training_outcome(capacity, code, classifier_reply) is Ok ==> training_outcome(
            capacity,
            code,
            classifier_reply,
        )->Ok_0 <= capacity,
{
}

} // verus!
