use crate::db_pool::users::User as DbUser;
use vstd::prelude::*;

verus! {

/// A user as it is shown to clients: the name only.
pub struct User {
    pub name: String,
}

impl From<DbUser> for User {
    fn from(value: DbUser) -> (r: Self) {
        User { name: value.name }
    }
}

impl vstd::std_specs::convert::FromSpecImpl<DbUser> for User {
    open spec fn obeys_from_spec() -> bool {
        true
    }

    open spec fn from_spec(value: DbUser) -> Self {
        User { name: value.name }
    }
}

} // verus!
