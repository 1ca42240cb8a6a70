use blog_server::db_pool::posts::{created_post_id, post_from_query, Post as DbPost};
use blog_server::db_pool::users::{
    uniqueness_from_query, user_from_query, CredentialUniqueness, User as DbUser,
};
use blog_server::db_pool::utils::{
    extract_single_object, query_result_into_objects, DbObject, DbResponse, DbValue, QueryItem,
    QueryValue,
};
use blog_server::domain::posts::Post;
use blog_server::domain::users::User;

fn text(s: &str) -> DbValue {
    DbValue { as_int: s.parse().unwrap_or(0), as_string: s.to_owned(), rendered: format!("'{}'", s) }
}

fn integer(n: i64) -> DbValue {
    DbValue { as_int: n, as_string: n.to_string(), rendered: n.to_string() }
}

fn object(fields: Vec<(&str, DbValue)>) -> DbObject {
    DbObject { fields: fields.into_iter().map(|(k, v)| (k.to_owned(), v)).collect() }
}

fn answer(items: Vec<QueryItem>) -> Vec<DbResponse> {
    vec![DbResponse { result: Ok(QueryValue::Array(items)) }]
}

fn post_object() -> DbObject {
    object(vec![("content", text("body")), ("id", integer(7)), ("title", text("hello"))])
}

#[test]
fn object_field_lookup() {
    let o = post_object();
    assert_eq!(o.get("id").unwrap().as_int, 7);
    assert_eq!(o.get("title").unwrap().as_string, "hello");
    assert!(o.get("missing").is_none());
}

#[test]
fn no_statement_gives_no() {
    assert_eq!(query_result_into_objects(vec![]).err(), Some("NO.".to_owned()));
}

#[test]
fn failed_or_scalar_statement_gives_no() {
    let failed = vec![DbResponse { result: Err("boom".to_owned()) }];
    assert_eq!(query_result_into_objects(failed).err(), Some("NO.".to_owned()));
    let scalar = vec![DbResponse { result: Ok(QueryValue::Other) }];
    assert_eq!(query_result_into_objects(scalar).err(), Some("NO.".to_owned()));
}

#[test]
fn only_the_first_statement_counts() {
    let responses = vec![
        DbResponse { result: Ok(QueryValue::Other) },
        DbResponse { result: Ok(QueryValue::Array(vec![QueryItem::Object(post_object())])) },
    ];
    assert_eq!(query_result_into_objects(responses).err(), Some("NO.".to_owned()));
}

#[test]
fn non_records_become_errors() {
    let objects =
        query_result_into_objects(answer(vec![QueryItem::Object(post_object()), QueryItem::Other]))
            .ok()
            .unwrap();
    assert_eq!(objects.len(), 2);
    assert!(objects[0].is_ok());
    assert_eq!(objects[1].as_ref().err(), Some(&"lol".to_owned()));
}

#[test]
fn single_object_of_nothing_is_not_found() {
    assert_eq!(extract_single_object(vec![]).err(), Some("not found".to_owned()));
    assert_eq!(
        extract_single_object(vec![Err("x".to_owned()), Ok(post_object())]).err(),
        Some("x".to_owned())
    );
}

#[test]
fn post_is_read_from_record() {
    let post = DbPost::try_from(post_object()).ok().unwrap();
    assert_eq!(post.id, 7);
    assert_eq!(post.title, "hello");
    assert_eq!(post.content, "body");
}

#[test]
fn post_id_is_cut_to_32_bits() {
    let o = object(vec![("id", integer((1i64 << 32) + 5)), ("title", text("t")), ("content", text("c"))]);
    assert_eq!(DbPost::try_from(o).ok().unwrap().id, 5);
}

#[test]
fn first_missing_post_field_is_reported() {
    assert_eq!(DbPost::try_from(object(vec![])).err(), Some("Id not found".to_owned()));
    assert_eq!(
        DbPost::try_from(object(vec![("id", integer(1))])).err(),
        Some("title not found".to_owned())
    );
    assert_eq!(
        DbPost::try_from(object(vec![("id", integer(1)), ("title", text("t"))])).err(),
        Some("content not found".to_owned())
    );
}

#[test]
fn created_post_id_is_read() {
    assert_eq!(created_post_id(answer(vec![QueryItem::Object(post_object())])), Ok(7));
    assert_eq!(
        created_post_id(answer(vec![QueryItem::Object(object(vec![]))])),
        Err("id field missing".to_owned())
    );
    assert_eq!(created_post_id(answer(vec![])), Err("not found".to_owned()));
    assert_eq!(created_post_id(answer(vec![QueryItem::Other])), Err("lol".to_owned()));
}

#[test]
fn post_is_read_from_query() {
    let post = post_from_query(answer(vec![QueryItem::Object(post_object())])).ok().unwrap();
    assert_eq!((post.id, post.title.as_str()), (7, "hello"));
    assert_eq!(post_from_query(vec![]).err(), Some("NO.".to_owned()));
}

fn user_object() -> DbObject {
    object(vec![
        ("email", text("a@b.c")),
        ("id", integer(3)),
        ("name", text("alice")),
        ("password_hash", text("$2b$10$x")),
    ])
}

#[test]
fn user_is_read_from_record() {
    let user = DbUser::try_from(user_object()).ok().unwrap();
    assert_eq!(user.id, 3);
    assert_eq!(user.name, "alice");
    assert_eq!(user.email, "a@b.c");
    assert_eq!(user.password_hash, "$2b$10$x");
}

#[test]
fn first_missing_user_field_is_reported() {
    assert_eq!(DbUser::try_from(object(vec![])).err(), Some("Id not found".to_owned()));
    assert_eq!(
        DbUser::try_from(object(vec![("id", integer(1))])).err(),
        Some("Name not found".to_owned())
    );
    assert_eq!(
        DbUser::try_from(object(vec![("id", integer(1)), ("name", text("n"))])).err(),
        Some("Email not found".to_owned())
    );
    assert_eq!(
        DbUser::try_from(object(vec![("id", integer(1)), ("name", text("n")), ("email", text("e"))])).err(),
        Some("Password hash not found".to_owned())
    );
}

#[test]
fn user_is_read_from_query() {
    let user = user_from_query(answer(vec![QueryItem::Object(user_object())])).ok().unwrap();
    assert_eq!(user.name, "alice");
    assert_eq!(user_from_query(answer(vec![])).err(), Some("not found".to_owned()));
}

#[test]
fn no_matching_user_leaves_credentials_free() {
    assert_eq!(
        uniqueness_from_query(answer(vec![]), "alice", "a@b.c"),
        Ok(CredentialUniqueness { name: true, email: true })
    );
    assert_eq!(
        CredentialUniqueness::default(),
        CredentialUniqueness { name: true, email: true }
    );
}

#[test]
fn uniqueness_compares_rendered_values() {
    let row = object(vec![
        ("email", DbValue { as_int: 0, as_string: "a@b.c".to_owned(), rendered: "a@b.c".to_owned() }),
        ("name", DbValue { as_int: 0, as_string: "alice".to_owned(), rendered: "alice".to_owned() }),
    ]);
    assert_eq!(
        uniqueness_from_query(answer(vec![QueryItem::Object(row)]), "alice", "x@y.z"),
        Ok(CredentialUniqueness { name: false, email: true })
    );
    // rendered text values carry quotes, so they never equal a plain name
    let quoted = object(vec![("email", text("a@b.c")), ("name", text("alice"))]);
    assert_eq!(
        uniqueness_from_query(answer(vec![QueryItem::Object(quoted)]), "alice", "a@b.c"),
        Ok(CredentialUniqueness { name: true, email: true })
    );
}

#[test]
fn uniqueness_reports_missing_fields_and_errors() {
    assert_eq!(
        uniqueness_from_query(answer(vec![QueryItem::Object(object(vec![]))]), "a", "b"),
        Err("name field doesn't exist".to_owned())
    );
    assert_eq!(
        uniqueness_from_query(
            answer(vec![QueryItem::Object(object(vec![("name", text("z"))]))]),
            "a",
            "b"
        ),
        Err("email field doesn't exist".to_owned())
    );
    assert_eq!(
        uniqueness_from_query(answer(vec![QueryItem::Other]), "a", "b"),
        Err("lol".to_owned())
    );
    assert_eq!(uniqueness_from_query(vec![], "a", "b"), Err("NO.".to_owned()));
}

#[test]
fn shown_post_and_user_keep_fields() {
    let post = Post::from(DbPost { id: 4, title: "t".to_owned(), content: "c".to_owned() });
    assert_eq!((post.id, post.title.as_str(), post.content.as_str()), (4, "t", "c"));
    let user = User::from(DbUser {
        id: 1,
        name: "n".to_owned(),
        email: "e".to_owned(),
        password_hash: "h".to_owned(),
    });
    assert_eq!(user.name, "n");
}
