//! The errors the bare-metal example programs surface to their callers.

use vstd::prelude::*;

verus! {

/// What a program call can fail with. The host runtime turns each variant
/// into its own program-error value.
#[derive(Debug, Clone, Copy, PartialEq, Eq, Structural)]
pub enum ProgError {
    /// The touched account is not owned by the running program.
    IncorrectProgramId,
    /// The instruction data carries no argument byte.
    InvalidArgument,
    /// The instruction data is too short to carry the declared fields.
    InvalidParameters,
    /// The leading function flag selects no known function.
    InvalidFunctionFlag,
}

} // verus!
