use vstd::prelude::*;

verus! {

/// Tri-state result of a selection prompt: the user picked one of the
/// caller's labels, or one of the two reserved control entries.
#[derive(Clone, Debug)]
pub enum ChoiceOutcome {
    Selected(String),
    Back,
    Exit,
}

/// Recovery category of a remote error: a missing resource is benign,
/// anything else ends the session.
#[derive(Clone, Debug)]
pub enum ErrorClass {
    NotFound,
    RemoteFailure(String),
}

/// An error from the resource client, tagged with its recovery category.
/// Produced at the client boundary, never constructed by the engine.
#[derive(Clone, Debug)]
pub struct ClassifiedError {
    pub kind: ErrorClass,
    pub raw: String,
}

} // verus!
