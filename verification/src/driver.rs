//! The compiler modes and the ahead-of-time entry point. The native code
//! backend is an external collaborator; until one exists, the
//! ahead-of-time path reports an unsupported-mode failure.

use vstd::prelude::*;

verus! {

/// The compiler modes a driver can ask for.
#[derive(Debug)]
pub enum Mode {
    /// Compile in memory and execute at once.
    JIT,
    /// Compile ahead of time into an executable at the given path.
    AOT(String),
}

/// The failures the driver surface can report.
#[derive(Debug, PartialEq, Eq, Structural, Clone, Copy)]
pub enum CompilerError {
    /// The requested compiler mode has no backend yet.
    UnsupportedMode,
}

impl CompilerError {
    /// A human-readable description of the failure.
    pub fn message(&self) -> (r: String)
        ensures
            r@ == "unsupported compiler mode"@,
    {
        String::from_str("unsupported compiler mode")
    }
}

/// Compile the target input string into an executable binary at `dest`.
/// No ahead-of-time backend exists, so every call reports the mode as
/// unsupported.
pub fn compile_to_binary(_input: &str, _dest: &str) -> (r: Result<(), CompilerError>)
    ensures
        r == Err::<(), CompilerError>(CompilerError::UnsupportedMode),
{
    Err(CompilerError::UnsupportedMode)
}

} // verus!
