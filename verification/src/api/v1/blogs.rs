use vstd::prelude::*;

verus! {

/// The query of a blog listing: `featured=true` asks for featured notes only.
#[derive(Debug, Clone, Copy)]
pub struct BlogQuery {
    pub featured: Option<bool>,
}

} // verus!
