use crate::db_pool::posts::Post as DbPost;
use vstd::prelude::*;

verus! {

/// A post as it is shown to clients.
pub struct Post {
    pub title: String,
    pub content: String,
    pub id: i32,
}

impl From<DbPost> for Post {
    fn from(value: DbPost) -> (r: Self) {
        Post { title: value.title, content: value.content, id: value.id }
    }
}

impl vstd::std_specs::convert::FromSpecImpl<DbPost> for Post {
    open spec fn obeys_from_spec() -> bool {
        true
    }

    open spec fn from_spec(value: DbPost) -> Self {
        Post { title: value.title, content: value.content, id: value.id }
    }
}

} // verus!
