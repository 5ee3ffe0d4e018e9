//! Tuning knobs for the finalize operation.
//!
//! Every field defaults to zero, which tells the engine to choose for
//! itself.  A value is immutable once constructed and is copied field for
//! field into the engine's parameter record immediately before a call; no
//! validation happens here, because the engine itself rejects invalid
//! combinations through its status-code channel.

use vstd::prelude::*;
use crate::CompressionLevel;

verus! {

/// Tuning knobs handed to the engine when finalizing a dictionary.
#[derive(Clone, Copy, Debug, PartialEq, Eq, Structural)]
pub struct Parameters {
    /// Compression level to optimize the dictionary for; `0` means default.
    pub compression_level: CompressionLevel,
    /// Verbosity of the engine's logging; `0` means silent.
    pub notification_level: u32,
    /// Explicit dictionary identifier; `0` lets the engine pick one.
    pub dict_id: u32,
}

/// The all-zero configuration: every knob set to "let the engine choose".
pub open spec fn zero_parameters() -> Parameters {
    Parameters { compression_level: 0, notification_level: 0, dict_id: 0 }
}

impl Default for Parameters {
    /// The default configuration is the all-zero one.
    fn default() -> (r: Parameters)
        ensures
            r == zero_parameters(),
    {
        Parameters { compression_level: 0, notification_level: 0, dict_id: 0 }
    }
}

/// Default parameters are identity-neutral: any explicitly zero-valued
/// configuration is equal, field for field, to the default one, so a call
/// made with the default marshals the very same engine parameter record —
/// and therefore produces a dictionary exactly when the explicit zeros do.
pub proof fn lemma_default_params_neutral(p: Parameters)
    requires
        p.compression_level == 0,
        p.notification_level == 0,
        p.dict_id == 0,
    ensures
        p == zero_parameters(),
{
}

} // verus!
