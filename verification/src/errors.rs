//! The error taxonomy of the cloned-project workflow.

use vstd::prelude::*;
use crate::layout::Violation;

verus! {

/// Everything that can go wrong between loading a cloned project and
/// producing its tweaked bytecode. Every stage fails fast and hands the
/// first-class error to its caller; nothing is downgraded to a default.
#[derive(Debug)]
pub enum TweakError {
    /// A file or environment fault outside the descriptor itself.
    Io { message: String },
    /// The descriptor file, or the target contract, is missing.
    NotFound { what: String },
    /// The descriptor exists but does not spell a valid clone record.
    Parse { what: String },
    /// The compiler service failed; carries its diagnostics.
    Compile { diagnostics: String },
    /// The configured chain differs from the recorded deployment chain.
    ChainMismatch { configured: u64, recorded: u64 },
    /// The recompiled storage layout breaks the recorded one.
    IncompatibleStorage { violations: Vec<Violation> },
    /// Chain state could not be fetched over RPC.
    Rpc { message: String },
    /// Deployment replay could not be completed deterministically.
    Replay { message: String },
}

} // verus!
