use vstd::prelude::*;

verus! {

/// An error reported by the operating system: a numeric error code together
/// with an optional human-readable description of that code.
///
/// The description is produced by the platform's error-message service; when
/// that service cannot describe the code, the description is absent.
#[derive(Clone, Debug)]
pub struct WindowsError {
    /// The numeric error code the operating system reported.
    pub code: u32,
    /// The system's description of `code`, when one could be retrieved.
    pub description: Option<String>,
}

impl WindowsError {
    /// Packages an error code and its optional description.
    pub fn new(code: u32, description: Option<String>) -> (r: WindowsError)
        ensures
            r.code == code,
            r.description == description,
    {
        WindowsError { code, description }
    }
}

} // verus!
