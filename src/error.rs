use vstd::prelude::*;

verus! {

/// Errors reported by the chain registry.
#[derive(Debug, Clone, PartialEq, Eq)]
pub enum StateManagerError {
    /// A value that is outside the accepted set, with a description.
    InvalidValue(String),
}

impl StateManagerError {
    /// The description carried by the error.
    pub open spec fn message(self) -> Seq<char> {
        match self {
            StateManagerError::InvalidValue(m) => m@,
        }
    }
}

} // verus!
