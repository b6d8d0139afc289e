use vstd::prelude::*;

verus! {

/// The query of a project listing: `featured=true` asks for featured projects only.
#[derive(Debug, Clone, Copy)]
pub struct ProjectQuery {
    pub featured: Option<bool>,
}

} // verus!
