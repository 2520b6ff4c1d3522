use vstd::prelude::*;

verus! {

/// The RPC status codes the service answers with.
#[derive(Clone, Copy, Debug, PartialEq, Eq, Structural)]
pub enum Code {
    InvalidArgument,
    NotFound,
    AlreadyExists,
    Internal,
    Unauthenticated,
}

/// An RPC failure: a code and a human-readable message.
#[derive(Debug)]
pub struct Status {
    pub code: Code,
    pub message: String,
}

/// `s` carries exactly the code `code` and the message `text`.
pub open spec fn status_is(s: Status, code: Code, text: Seq<char>) -> bool {
    s.code == code && s.message@ == text
}

impl Status {
    /// Builds a status from a code and a message.
    pub fn new(code: Code, message: &str) -> (s: Status)
        ensures
            status_is(s, code, message@),
    {
        Status { code, message: message.to_owned() }
    }
}

} // verus!

verus! {

/// A failure reported by the profile store, with its description.
#[derive(Debug)]
pub struct StoreError {
    pub detail: String,
}

} // verus!
