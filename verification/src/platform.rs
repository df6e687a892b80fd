use vstd::prelude::*;
use vstd::string::*;

verus! {

/// The Slint platform of the editor: it hands Slint the window adapter of
/// the window that is being opened.
#[derive(Debug, Clone, Copy, PartialEq, Eq, Structural)]
pub struct BaseviewSlintPlatform;

/// Why the platform could not hand Slint a window adapter.
#[derive(Debug, Clone, Copy, PartialEq, Eq, Structural)]
pub enum PlatformError {
    /// No window of the editor has registered its adapter.
    NoAdapterSet,
}

impl PlatformError {
    /// The message that Slint is given for the error.
    pub fn message(&self) -> (message: String)
        ensures
            message@ == "No adapter set"@,
    {
        String::from_str("No adapter set")
    }
}

impl BaseviewSlintPlatform {
    /// Hands out the adapter of the window being opened, `current`; fails
    /// when no window has registered one.
    pub fn create_window_adapter<A>(&self, current: Option<A>) -> (adapter: Result<A, PlatformError>)
        ensures
            match current {
                Some(a) => adapter == Ok::<A, PlatformError>(a),
                None => adapter == Err::<A, PlatformError>(PlatformError::NoAdapterSet),
            },
    {
        match current {
            Some(a) => Ok(a),
            None => Err(PlatformError::NoAdapterSet),
        }
    }
}

} // verus!
