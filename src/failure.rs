//! The ways a run can stop short of an exit status.
use vstd::prelude::*;

verus! {

/// Why a run stopped before the command could report an exit status.
#[derive(Clone, Copy, Debug, PartialEq, Eq, Structural)]
pub enum Failure {
    /// The workspace directory or its device placeholder could not be made.
    Workspace,
    /// No pull token could be obtained.
    Authentication,
    /// A registry request failed in transport or with a non-success status.
    Transport,
    /// A registry response did not have the expected shape.
    Parse,
    /// The manifest index lists no variant for the requested architecture.
    NoManifestForArchitecture,
    /// A layer blob was not a valid gzip stream or tar archive, or could not be written.
    Extraction,
    /// The root change or the PID namespace was refused.
    Isolation,
    /// The command could not be started.
    Launch,
    /// An event arrived that the current stage does not expect.
    OutOfOrder,
}

} // verus!
