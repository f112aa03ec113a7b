//! Failures that the engine reports to its callers.

use vstd::prelude::*;

verus! {

/// Why an operation on the registry was refused.
#[derive(Debug, Clone, Copy, PartialEq, Eq, Structural)]
pub enum EngineError {
    /// The operation named a monitor that the registry does not hold.
    NotFound,
    /// The monitor's definition is not acceptable: its interval is not
    /// positive.
    Validation,
}

} // verus!
