//! The errors the library's operations report.

use vstd::prelude::*;

verus! {

/// Why an operation was refused.
///
/// `ConfigurationError` is always local: the parameters handed to a builder
/// were invalid, and nothing was created. `InvalidState` means the operation
/// is not valid in the session's current phase. `InvalidDescription` and
/// `InvalidCandidate` reject a malformed payload. `EngineError` surfaces an
/// opaque failure of the connectivity engine. `NotConnected` is returned by
/// `send` while no candidate pair has been selected.
#[derive(Clone, Copy, Debug, PartialEq, Eq, Structural)]
pub enum Error {
    ConfigurationError,
    EngineError,
    InvalidState,
    InvalidDescription,
    InvalidCandidate,
    NotConnected,
}

} // verus!
