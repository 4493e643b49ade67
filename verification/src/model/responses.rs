//! Response bodies of the comment endpoint.

use vstd::prelude::*;

verus! {

/// The provider's reply to a submitted comment; `json` is set only when the
/// submission failed.
#[derive(Clone, Debug)]
pub struct CommentResponse {
    pub json: Option<ErrorResponse>,
}

/// The error list inside a failed comment response.
#[derive(Clone, Debug)]
pub struct ErrorResponse {
    pub errors: Vec<Vec<String>>,
}

} // verus!
