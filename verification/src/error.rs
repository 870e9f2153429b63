//! The error that a refused operation returns.

use vstd::prelude::*;

verus! {

/// Why an operation was refused, in words.
#[derive(Debug, Clone, PartialEq, Eq)]
pub struct OrchestratorError(pub String);

impl OrchestratorError {
    /// The text of the error.
    pub fn to_string(&self) -> (text: String)
        ensures
            text@ == self.0@,
    {
        self.0.clone()
    }
}

/// The model of a refusable result: the value, or the text of the refusal.
pub open spec fn verdict<T>(r: Result<T, OrchestratorError>) -> Result<T, Seq<char>> {
    match r {
        Ok(v) => Ok(v),
        Err(e) => Err(e.0@),
    }
}

/// A refusal with a fixed text.
pub fn refuse(text: &str) -> (e: OrchestratorError)
    ensures
        e.0@ == text@,
{
    OrchestratorError(text.to_owned())
}

} // verus!
