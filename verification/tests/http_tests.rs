use blog_server::domain::auth::Tokens;
use blog_server::domain::posts::Post;
use blog_server::domain::users::User;
use blog_server::http_server::api::auth::{login_reply, register_reply};
use blog_server::http_server::api::posts::{changed_post_reply, create_reply, get_one_reply, trash_reply};
use blog_server::http_server::api::users;
use blog_server::http_server::middleware::tokens_from_cookies;
use blog_server::http_server::{session_not_found, ReplyBody};
use blog_server::session::RegisterError;
use blog_server::text::str_equals;

fn message(body: &ReplyBody) -> Option<&str> {
    match body {
        ReplyBody::Message(m) => Some(m),
        _ => None,
    }
}

fn error(body: &ReplyBody) -> Option<&str> {
    match body {
        ReplyBody::Error(m) => Some(m),
        _ => None,
    }
}

#[test]
fn missing_session_reply() {
    let r = session_not_found();
    assert_eq!(r.status, 500);
    assert_eq!(message(&r.body), Some("session not found"));
}

#[test]
fn login_success_sets_both_cookies() {
    let r = login_reply(Ok(Tokens { access: "A".to_owned(), key: "K".to_owned() }));
    assert_eq!(r.status, 200);
    assert_eq!(r.cookies.len(), 2);
    assert_eq!((r.cookies[0].name.as_str(), r.cookies[0].value.as_str()), ("access-token", "A"));
    assert!(r.cookies[0].http_only);
    assert_eq!((r.cookies[1].name.as_str(), r.cookies[1].value.as_str()), ("key-token", "K"));
    assert!(!r.cookies[1].http_only);
    assert_eq!(message(&r.body), Some("success"));
}

#[test]
fn login_failure_reply() {
    let r = login_reply(Err("Invalid credentials".to_owned()));
    assert_eq!(r.status, 500);
    assert!(r.cookies.is_empty());
    assert_eq!(error(&r.body), Some("Invalid credentials"));
}

#[test]
fn register_failure_reply_shows_error_text() {
    let r = register_reply(Err(RegisterError::NameTaken));
    assert_eq!(r.status, 500);
    assert_eq!(error(&r.body), Some("Name is already taken"));
    let r = register_reply(Ok(Tokens::default()));
    assert_eq!(r.status, 200);
}

#[test]
fn post_replies() {
    let r = trash_reply();
    assert_eq!((r.status, message(&r.body)), (200, Some("test")));
    let r = create_reply(Ok(9));
    assert_eq!(r.status, 201);
    assert!(matches!(r.body, ReplyBody::Id(9)));
    let r = create_reply(Err("e".to_owned()));
    assert_eq!((r.status, error(&r.body)), (500, Some("e")));
    let post = Post { title: "t".to_owned(), content: "c".to_owned(), id: 2 };
    let r = get_one_reply(Ok(post));
    assert_eq!(r.status, 200);
    assert!(matches!(r.body, ReplyBody::Post(ref p) if p.id == 2));
    let r = get_one_reply(Err("gone".to_owned()));
    assert_eq!((r.status, error(&r.body)), (500, Some("gone")));
    let r = changed_post_reply(Err("gone".to_owned()));
    assert_eq!((r.status, message(&r.body)), (500, Some("gone")));
}

#[test]
fn user_replies() {
    let r = users::get_one_reply(Ok(User { name: "n".to_owned() }));
    assert_eq!(r.status, 200);
    let r = users::get_one_reply(Err("not found".to_owned()));
    assert_eq!((r.status, message(&r.body)), (404, Some("not found")));
}

#[test]
fn cookies_become_tokens() {
    let t = tokens_from_cookies(Some("a".to_owned()), None);
    assert_eq!((t.access.as_str(), t.key.as_str()), ("a", ""));
}

#[test]
fn string_equality() {
    assert!(str_equals("héllo", "héllo"));
    assert!(!str_equals("héllo", "hello"));
    assert!(!str_equals("ab", "abc"));
    assert!(str_equals("", ""));
}
