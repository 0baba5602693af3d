//! The normalized result of a successful call.

use vstd::prelude::*;

verus! {

/// What a caller gets when the whole pipeline succeeds: the numeric status
/// code (duplicated from the status for convenience), the status itself,
/// the header collection as received, and the body read to completion
/// before this value is built — never a partial read.
pub struct Response {
    pub code: i32,
    pub status: u16,
    pub headers: Vec<(String, String)>,
    pub body: String,
}

impl Response {
    /// The convenience copy of the status is the status itself.
    pub open spec fn well_formed(&self) -> bool {
        self.code == self.status as i32
    }

    /// A response renders as its body text, so that ad-hoc printing shows
    /// the payload rather than metadata.
    pub fn display_string(&self) -> (r: String)
        ensures
            r@ == self.body@,
    {
        self.body.clone()
    }
}

} // verus!
