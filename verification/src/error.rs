//! Error taxonomy of the library.
//!
//! `VerificationFailed` is a normal protocol outcome (a proof that does not
//! check out); the other variants report malformed input. Callers must be
//! able to tell the two apart, so no operation conflates them.

use vstd::prelude::*;

verus! {

/// Every failure a library operation can report.
#[derive(Clone, Copy, Debug, PartialEq, Eq, Structural)]
pub enum Error {
    /// An input buffer has the wrong length for its role.
    InvalidLength,
    /// An input buffer has the right length but does not decode
    /// (an off-curve point, a non-canonical scalar, an unmarked signature).
    InvalidEncoding,
    /// A seed failed key-schedule expansion.
    ExpansionFailure,
    /// Inputs were well formed but the cryptographic check did not pass.
    VerificationFailed,
    /// A chain code is not exactly the mandated length.
    ChainCodeError,
}

impl Error {
    /// A short human-readable description, for boundary layers that
    /// surface failures as messages.
    pub fn message(&self) -> String {
        match self {
            Error::InvalidLength => "invalid input length".to_string(),
            Error::InvalidEncoding => "invalid encoding".to_string(),
            Error::ExpansionFailure => "seed expansion failed".to_string(),
            Error::VerificationFailed => "verification failed".to_string(),
            Error::ChainCodeError => "invalid chain code".to_string(),
        }
    }
}

} // verus!
