use vstd::prelude::*;

verus! {

/// The one error an indicator can report: it is raised at construction,
/// never while values are fed in.
#[derive(Debug, Clone, Copy, PartialEq, Eq, Structural)]
pub enum TaError {
    /// A configured period is zero or otherwise outside its valid range.
    InvalidParameter,
}

} // verus!
