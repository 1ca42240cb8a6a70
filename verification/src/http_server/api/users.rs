use crate::domain::users::User;
use crate::http_server::{Reply, ReplyBody};
use vstd::prelude::*;

verus! {

/// The answer to reading a user: 200 with the user, or 404 with the error as a
/// message.
pub fn get_one_reply(result: Result<User, String>) -> (r: Reply)
    ensures
        r.cookies@.len() == 0,
        match result {
            Ok(u) => r.status == 200 && r.body == ReplyBody::User(u),
            Err(e) => r.status == 404 && (r.body matches ReplyBody::Message(m) && m@ == e@),
        },
{
    match result {
        Ok(user) => Reply { status: 200, cookies: Vec::new(), body: ReplyBody::User(user) },
        Err(error) => Reply { status: 404, cookies: Vec::new(), body: ReplyBody::Message(error) },
    }
}

} // verus!
