use crate::domain::auth::Tokens;
use crate::http_server::{Reply, ReplyBody, ReplyCookie};
use crate::session::{register_error_message, RegisterError};
use vstd::prelude::*;

verus! {

/// What a client sends to log in.
pub struct LoginBody {
    pub name: String,
    pub password: String,
}

/// What a client sends to register.
pub struct RegisterBody {
    pub name: String,
    pub password: String,
    pub email: String,
}

/// Whether `r` hands a token pair to the client: status 200, the access token in
/// an HTTP-only cookie "access-token", the key token in a cookie "key-token",
/// and the message "success".
pub open spec fn delivers_tokens(r: Reply, access: Seq<char>, key: Seq<char>) -> bool {
    &&& r.status == 200
    &&& r.cookies@.len() == 2
    &&& r.cookies@[0].name@ == "access-token"@
    &&& r.cookies@[0].value@ == access
    &&& r.cookies@[0].http_only
    &&& r.cookies@[1].name@ == "key-token"@
    &&& r.cookies@[1].value@ == key
    &&& !r.cookies@[1].http_only
    &&& r.body matches ReplyBody::Message(m) && m@ == "success"@
}

/// A reply that hands over a token pair sets exactly two cookies: first the
/// access token, HTTP-only, then the key token, not HTTP-only.
pub proof fn lemma_token_cookies(r: Reply, access: Seq<char>, key: Seq<char>)
    requires
        delivers_tokens(r, access, key),
    ensures
        r.status == 200,
        r.cookies@.len() == 2,
        r.cookies@[0].name@ == "access-token"@ && r.cookies@[0].value@ == access && r.cookies@[0].http_only,
        r.cookies@[1].name@ == "key-token"@ && r.cookies@[1].value@ == key && !r.cookies@[1].http_only,
{
}

fn tokens_reply(tokens: Tokens) -> (r: Reply)
    ensures
        delivers_tokens(r, tokens.access@, tokens.key@),
{
    let mut cookies: Vec<ReplyCookie> = Vec::new();
    cookies.push(ReplyCookie { name: "access-token".to_owned(), value: tokens.access, http_only: true });
    cookies.push(ReplyCookie { name: "key-token".to_owned(), value: tokens.key, http_only: false });
    Reply { status: 200, cookies, body: ReplyBody::Message("success".to_owned()) }
}

/// The answer to a login: the token pair on success, otherwise status 500 with
/// the error.
pub fn login_reply(result: Result<Tokens, String>) -> (r: Reply)
    ensures
        match result {
            Ok(t) => delivers_tokens(r, t.access@, t.key@),
            Err(e) => r.status == 500 && r.cookies@.len() == 0 && (r.body matches ReplyBody::Error(m)
                && m@ == e@),
        },
{
    match result {
        Ok(tokens) => tokens_reply(tokens),
        Err(error) => Reply { status: 500, cookies: Vec::new(), body: ReplyBody::Error(error) },
    }
}

/// The answer to a registration: the token pair on success, otherwise status
/// 500 with the error's text.
pub fn register_reply(result: Result<Tokens, RegisterError>) -> (r: Reply)
    ensures
        match result {
            Ok(t) => delivers_tokens(r, t.access@, t.key@),
            Err(e) => r.status == 500 && r.cookies@.len() == 0 && (r.body matches ReplyBody::Error(m)
                && m@ == register_error_message(e@)),
        },
{
    match result {
        Ok(tokens) => tokens_reply(tokens),
        Err(error) => Reply { status: 500, cookies: Vec::new(), body: ReplyBody::Error(error.message()) },
    }
}

} // verus!
