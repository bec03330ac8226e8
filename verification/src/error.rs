//! Fatal hardware errors: any of them ends normal operation for good.

use vstd::prelude::*;

verus! {

/// A hardware channel failed. Each kind is fatal to the round: it
/// propagates to the orchestrator, which enters a failure-indication state
/// with no recovery.
#[derive(PartialEq, Eq, Structural, Clone, Copy, Debug)]
pub enum RuntimeError {
    /// A button level could not be read.
    PinReadError,
    /// The buzzer or indicator level could not be written.
    PinWriteError,
    /// The character display rejected a command.
    DisplayError,
}

} // verus!
