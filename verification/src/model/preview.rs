//! Preview data attached to a post.

use vstd::prelude::*;

verus! {

/// Preview images of a post.
#[derive(Clone, Debug, Default)]
pub struct Preview {
    pub enabled: bool,
    pub images: Vec<String>,
}

} // verus!
