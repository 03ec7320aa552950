use vstd::prelude::*;

verus! {

/// A `load` attempt failed; fatal to that attempt, recoverable at the
/// reload-controller level.
#[derive(Clone, Copy, Debug, PartialEq, Eq, Structural)]
pub enum LoadError {
    /// The artifact could not be parsed as a well-formed binary component.
    Malformed,
    /// A required entrypoint (construct / view / call / call-with) is absent.
    MissingExport,
    /// The artifact expects a capability the host does not provide.
    ImportMismatch,
}

/// A view-construction pass failed; recoverable per pass.
#[derive(Clone, Copy, Debug, PartialEq, Eq, Structural)]
pub enum ViewError {
    /// The supplied state bytes do not match the component's expected shape.
    StateMismatch,
    /// The view pass did not leave a finished root element in the table.
    RootElementNotFound,
}

/// A closure invocation failed; recoverable per call, the instance stays up.
#[derive(Clone, Copy, Debug, PartialEq, Eq, Structural)]
pub enum CallError {
    /// The handle does not denote a live closure of the current instance.
    NotFound,
    /// The payload did not deserialize to the thunk's expected type.
    BadPayload,
    /// A stateless handle was called with a payload, or a stateful one
    /// without; the two call shapes are not interchangeable.
    ShapeMismatch,
}

/// A resource-table access failed: the handle does not denote a live object
/// of the current instance.
#[derive(Clone, Copy, Debug, PartialEq, Eq, Structural)]
pub enum ResourceError {
    NotFound,
}

/// Any failure surfaced by the runtime, propagated as a value; nothing in
/// this crate terminates the host process.
#[derive(Clone, Copy, Debug, PartialEq, Eq, Structural)]
pub enum Error {
    Load(LoadError),
    View(ViewError),
    Call(CallError),
    Resource(ResourceError),
}

impl LoadError {
    /// A short description for display by the host.
    pub fn message(&self) -> (r: &'static str)
        ensures
            r@.len() > 0,
    {
        proof {
            reveal_strlit("artifact is not a well-formed binary component");
            reveal_strlit("a required entrypoint is missing from the artifact");
            reveal_strlit("the artifact expects a capability the host does not provide");
        }
        match self {
            LoadError::Malformed => "artifact is not a well-formed binary component",
            LoadError::MissingExport => "a required entrypoint is missing from the artifact",
            LoadError::ImportMismatch => "the artifact expects a capability the host does not provide",
        }
    }
}

} // verus!
