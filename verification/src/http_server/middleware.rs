use crate::domain::auth::Tokens;
use vstd::prelude::*;

verus! {

/// The token pair a request carries: the values of its "access-token" and
/// "key-token" cookies, each empty where the cookie is missing.
pub fn tokens_from_cookies(access: Option<String>, key: Option<String>) -> (t: Tokens)
    ensures
        t.access@ == (match access {
            Some(a) => a@,
            None => Seq::<char>::empty(),
        }),
        t.key@ == (match key {
            Some(k) => k@,
            None => Seq::<char>::empty(),
        }),
{
    let access = match access {
        Some(a) => a,
        None => String::new(),
    };
    let key = match key {
        Some(k) => k,
        None => String::new(),
    };
    Tokens { access, key }
}

} // verus!
