//! A memory-safe boundary around a native dictionary-construction engine.
//!
//! The library accepts a flat buffer of concatenated samples together with
//! their individual lengths, checks that the two agree, negotiates a writable
//! output region, and translates the engine's raw numeric status codes into a
//! typed success/failure result.  The unverifiable foreign call itself is made
//! by the surrounding application; everything the call's inputs and outputs
//! pass through here is verified.

use vstd::prelude::*;

mod buffer;
mod ops;
mod params;
mod result;
mod samples;

pub use crate::buffer::OutBuffer;
pub use crate::ops::apply_engine_result;
pub use crate::ops::lemma_commitment_correct;
pub use crate::ops::training_outcome;
pub use crate::params::Parameters;
pub use crate::params::lemma_default_params_neutral;
pub use crate::params::zero_parameters;
pub use crate::result::is_error;
pub use crate::result::lemma_parse_code_exact;
pub use crate::result::parse_code;
pub use crate::result::parse_code_spec;
pub use crate::samples::SampleSet;
pub use crate::samples::checked_sum;
pub use crate::samples::sample_set_consistent;
pub use crate::samples::sum_sizes;

verus! {

/// Compression level requested from the engine; `0` lets the engine choose.
pub type CompressionLevel = i32;

/// An opaque error code whose meaning is defined entirely by the engine.
pub type ErrorCode = usize;

/// Outcome of a dictionary operation: either the number of bytes written,
/// or an opaque engine error code.
pub type SafeResult = Result<usize, ErrorCode>;

} // verus!
