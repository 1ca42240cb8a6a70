pub mod api;
pub mod middleware;

use crate::domain::posts::Post;
use crate::domain::users::User;
use vstd::prelude::*;

verus! {

/// A cookie a reply sets.
pub struct ReplyCookie {
    pub name: String,
    pub value: String,
    pub http_only: bool,
}

/// The JSON body of a reply.
pub enum ReplyBody {
    /// `{"message": ..}`
    Message(String),
    /// `{"error": ..}`
    Error(String),
    /// `{"id": ..}`
    Id(i32),
    /// A post.
    Post(Post),
    /// A user.
    User(User),
}

/// What an endpoint answers: the status code, the cookies it sets, and the body.
pub struct Reply {
    pub status: u16,
    pub cookies: Vec<ReplyCookie>,
    pub body: ReplyBody,
}

/// The answer of every endpoint that finds no session for the request.
pub fn session_not_found() -> (r: Reply)
    ensures
        r.status == 500,
        r.cookies@.len() == 0,
        r.body matches ReplyBody::Message(m) && m@ == "session not found"@,
{
    Reply {
        status: 500,
        cookies: Vec::new(),
        body: ReplyBody::Message("session not found".to_owned()),
    }
}

} // verus!
