use vstd::prelude::*;

verus! {

/// Error value produced by a user-supplied handler. The engine never lets
/// such an error escape: it is routed to the owning unit's catch handler.
#[derive(Debug)]
pub struct HandlerError {
    pub message: String,
}

impl HandlerError {
    /// Wrap a message in a handler error.
    pub fn new(message: String) -> (r: HandlerError)
        ensures
            r.message == message,
    {
        HandlerError { message }
    }

    /// The error's message, for callers that report it.
    pub fn message(&self) -> (r: &String)
        ensures
            r == &self.message,
    {
        &self.message
    }
}

} // verus!
