use vstd::prelude::*;

pub mod buffer;
pub mod draw;
pub mod gl;
pub mod objects;
pub mod program;

verus! {

/// Errors reported by the library.
#[derive(Debug)]
pub enum GolemError {
    /// Compiling or linking a shader program failed, with the driver's message.
    ///
    /// This may happen for the vertex stage, the fragment stage or at link time.
    ShaderCompilationError(String),
    /// A general error reported by the graphics context.
    ContextError(String),
    /// A draw was requested while no shader program was bound.
    NoBoundProgram,
}

impl From<String> for GolemError {
    fn from(other: String) -> (r: GolemError)
        ensures
            r == GolemError::ContextError(other),
    {
        GolemError::ContextError(other)
    }
}

impl vstd::std_specs::convert::FromSpecImpl<String> for GolemError {
    open spec fn obeys_from_spec() -> bool {
        true
    }

    open spec fn from_spec(v: String) -> GolemError {
        GolemError::ContextError(v)
    }
}

} // verus!
