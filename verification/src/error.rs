use vstd::prelude::*;

verus! {

/// The facade's single catch-all failure kind.
///
/// Every failure the plugin layer can surface — a native dispatch that went
/// wrong, or a worker that never ran to completion — is carried as one
/// descriptive message; the facade does not distinguish error sub-kinds.
#[derive(Clone, Debug, PartialEq, Eq)]
pub struct Error {
    pub message: String,
}

impl Error {
    /// Wrap a descriptive message as the uniform error.
    pub fn new(message: String) -> (e: Error)
        ensures
            e.message == message,
    {
        Error { message }
    }

    /// The descriptive message this error carries.
    pub fn message(&self) -> (m: &str)
        ensures
            m@ == self.message@,
    {
        self.message.as_str()
    }
}

} // verus!
