//! The errors that the connector reports to its host.

use vstd::prelude::*;
use vstd::string::*;

verus! {

/// The kinds of failure.
#[derive(Debug, Clone, Copy, PartialEq, Eq, Structural)]
pub enum ErrorKind {
    /// An option of the server or the table cannot be used.
    Configuration,
    /// The remote service refused further requests for now.
    RateLimited,
    /// The remote service answered success with a body that is no JSON.
    MalformedResponse,
    /// The operation is one that a read-only connector does not have.
    Unsupported,
}

/// A failure, with the text that the host shows.
#[derive(Debug, Clone)]
pub struct ConnectorError {
    pub kind: ErrorKind,
    pub message: String,
}

impl View for ConnectorError {
    type V = (ErrorKind, Seq<char>);

    open spec fn view(&self) -> (ErrorKind, Seq<char>) {
        (self.kind, self.message@)
    }
}

impl ConnectorError {
    /// The text of the failure.
    pub fn to_string(&self) -> (text: String)
        ensures
            text@ == self.message@,
    {
        self.message.clone()
    }
}

} // verus!
