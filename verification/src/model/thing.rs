//! Flair fragments of a thing payload. The full thing record carries
//! floating-point fields and lives with the unverified REST plumbing.

use vstd::prelude::*;

verus! {

/// One fragment of a link flair's rich text.
#[derive(Clone, Debug)]
pub struct LinkFlairRichtext {
    pub e: String,
    pub t: String,
}

} // verus!
