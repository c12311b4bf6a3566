use vstd::prelude::*;

verus! {

/// Why an edit of the model was refused.
#[derive(Clone, Copy, Debug, PartialEq, Eq, Structural)]
pub enum ModelError {
    /// A positional removal named an index at or beyond the end of the collection.
    IndexOutOfRange,
    /// The edit would leave a reference without keys, or a model reference
    /// whose first key does not name a root of the document.
    InvalidReference,
}

impl ModelError {
    /// A short description for messages.
    pub fn message(&self) -> (s: &'static str)
        ensures
            s@ == (match *self {
                ModelError::IndexOutOfRange => "index out of range"@,
                ModelError::InvalidReference => "invalid reference"@,
            }),
    {
        match self {
            ModelError::IndexOutOfRange => "index out of range",
            ModelError::InvalidReference => "invalid reference",
        }
    }
}

} // verus!
