use crate::domain::posts::Post;
use crate::http_server::{Reply, ReplyBody};
use vstd::prelude::*;

verus! {

/// What a client sends to create a post.
pub struct CreateBody {
    pub title: String,
    pub content: String,
}

/// What a client sends to change a post; absent fields stay as they are.
pub struct UpdateBody {
    pub title: Option<String>,
    pub content: Option<String>,
}

/// The answer of the test endpoint.
pub fn trash_reply() -> (r: Reply)
    ensures
        r.status == 200,
        r.cookies@.len() == 0,
        r.body matches ReplyBody::Message(m) && m@ == "test"@,
{
    Reply { status: 200, cookies: Vec::new(), body: ReplyBody::Message("test".to_owned()) }
}

/// The answer to creating a post: 201 with its id, or 500 with the error.
pub fn create_reply(result: Result<i32, String>) -> (r: Reply)
    ensures
        r.cookies@.len() == 0,
        match result {
            Ok(id) => r.status == 201 && r.body == ReplyBody::Id(id),
            Err(e) => r.status == 500 && (r.body matches ReplyBody::Error(m) && m@ == e@),
        },
{
    match result {
        Ok(id) => Reply { status: 201, cookies: Vec::new(), body: ReplyBody::Id(id) },
        Err(error) => Reply { status: 500, cookies: Vec::new(), body: ReplyBody::Error(error) },
    }
}

/// The answer to reading a post: 200 with the post, or 500 with the error.
pub fn get_one_reply(result: Result<Post, String>) -> (r: Reply)
    ensures
        r.cookies@.len() == 0,
        match result {
            Ok(p) => r.status == 200 && r.body == ReplyBody::Post(p),
            Err(e) => r.status == 500 && (r.body matches ReplyBody::Error(m) && m@ == e@),
        },
{
    match result {
        Ok(post) => Reply { status: 200, cookies: Vec::new(), body: ReplyBody::Post(post) },
        Err(error) => Reply { status: 500, cookies: Vec::new(), body: ReplyBody::Error(error) },
    }
}

/// The answer to deleting or changing a post: 200 with the post, or 500 with
/// the error as a message.
pub fn changed_post_reply(result: Result<Post, String>) -> (r: Reply)
    ensures
        r.cookies@.len() == 0,
        match result {
            Ok(p) => r.status == 200 && r.body == ReplyBody::Post(p),
            Err(e) => r.status == 500 && (r.body matches ReplyBody::Message(m) && m@ == e@),
        },
{
    match result {
        Ok(post) => Reply { status: 200, cookies: Vec::new(), body: ReplyBody::Post(post) },
        Err(error) => Reply { status: 500, cookies: Vec::new(), body: ReplyBody::Message(error) },
    }
}

} // verus!
