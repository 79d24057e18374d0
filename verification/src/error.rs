use vstd::prelude::*;

verus! {

/// A recoverable failure, carried as a human-readable description.
///
/// One value of this type is at most pending at any time: the core keeps
/// the outcome of the previous event's handling and overwrites it on the
/// next one, never accumulating a history.
#[derive(Debug)]
pub struct Error {
    pub message: String,
}

impl Error {
    pub fn new(message: String) -> (r: Error)
        ensures
            r.message == message,
    {
        Error { message }
    }

    /// The human-readable description, as shown on the status line.
    pub fn description(&self) -> (r: &String)
        ensures
            r == &self.message,
    {
        &self.message
    }
}

} // verus!
