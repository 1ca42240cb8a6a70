use super::utils::{
    QueryItem,
    extract_single_object, lookup, query_result_into_objects, DbObject, DbResponse, DbValue,
    first_array, item_becomes,
};
use vstd::prelude::*;

verus! {

/// The query that stores a new post; `$data` holds its title and content.
pub const CREATE_POST_QUERY: &'static str = "CREATE post CONTENT $data";

/// The query that reads a post back.
pub const GET_POST_QUERY: &'static str = "SELECT * FROM post WHERE id = $1";

/// A post as the database holds it.
pub struct Post {
    pub id: i32,
    pub title: String,
    pub content: String,
}

/// `Post` as a mathematical value.
pub struct PostView {
    pub id: i32,
    pub title: Seq<char>,
    pub content: Seq<char>,
}

impl View for Post {
    type V = PostView;

    open spec fn view(&self) -> PostView {
        PostView { id: self.id, title: self.title@, content: self.content@ }
    }
}

/// A result with its string parts taken by their view.
pub open spec fn post_result_view(r: Result<Post, String>) -> Result<PostView, Seq<char>> {
    match r {
        Ok(p) => Ok(p@),
        Err(e) => Err(e@),
    }
}

/// The post a record holds: its "id" read as an integer and cut to 32 bits, its
/// "title" and "content" read as strings; the first missing field is reported.
pub open spec fn post_from_fields(fields: Seq<(String, DbValue)>) -> Result<PostView, Seq<char>> {
    match lookup(fields, "id"@) {
        None => Err("Id not found"@),
        Some(id) => match lookup(fields, "title"@) {
            None => Err("title not found"@),
            Some(title) => match lookup(fields, "content"@) {
                None => Err("content not found"@),
                Some(content) => Ok(
                    PostView { id: id.as_int as i32, title: title.as_string@, content: content.as_string@ },
                ),
            },
        },
    }
}

impl Post {
    /// Reads a post out of a stored record.
    pub fn try_from(object: DbObject) -> (r: Result<Post, String>)
        ensures
            post_result_view(r) == post_from_fields(object.fields@),
    {
        let id: i32 = match object.get("id") {
            Some(v) => v.as_int as i32,
            None => {
                return Err("Id not found".to_owned());
            },
        };
        let title = match object.get("title") {
            Some(v) => v.as_string.clone(),
            None => {
                return Err("title not found".to_owned());
            },
        };
        let content = match object.get("content") {
            Some(v) => v.as_string.clone(),
            None => {
                return Err("content not found".to_owned());
            },
        };
        Ok(Post { id, title, content })
    }
}

/// The id of the post that the create query answered with: the "id" field of the
/// first record, read as an integer and cut to 32 bits.
pub open spec fn created_id_from(responses: Seq<DbResponse>) -> Result<i32, Seq<char>> {
    match first_array(responses) {
        None => Err("NO."@),
        Some(items) => if items.len() == 0 {
            Err("not found"@)
        } else {
            match items[0] {
                super::utils::QueryItem::Other => Err("lol"@),
                super::utils::QueryItem::Object(o) => match lookup(o.fields@, "id"@) {
                    None => Err("id field missing"@),
                    Some(id) => Ok(id.as_int as i32),
                },
            }
        },
    }
}

/// The post that a read query answered with: the first record of the answer.
pub open spec fn post_from_responses(responses: Seq<DbResponse>) -> Result<PostView, Seq<char>> {
    match first_array(responses) {
        None => Err("NO."@),
        Some(items) => if items.len() == 0 {
            Err("not found"@)
        } else {
            match items[0] {
                super::utils::QueryItem::Other => Err("lol"@),
                super::utils::QueryItem::Object(o) => post_from_fields(o.fields@),
            }
        },
    }
}

/// Reads the id of a newly created post out of the answer to the create query.
pub fn created_post_id(responses: Vec<DbResponse>) -> (r: Result<i32, String>)
    ensures
        match r {
            Ok(id) => created_id_from(responses@) == Ok::<i32, Seq<char>>(id),
            Err(e) => created_id_from(responses@) == Err::<i32, Seq<char>>(e@),
        },
{
    let ghost items = first_array(responses@);
    let objects = match query_result_into_objects(responses) {
        Ok(objects) => objects,
        Err(e) => {
            return Err(e);
        },
    };
    proof {
        if objects@.len() > 0 {
            assert(item_becomes(items->0[0], objects@[0]));
        }
    }
    let object = match extract_single_object(objects) {
        Ok(object) => object,
        Err(e) => {
            return Err(e);
        },
    };
    match object.get("id") {
        Some(v) => Ok(v.as_int as i32),
        None => Err("id field missing".to_owned()),
    }
}

/// Reads a post out of the answer to the read query.
pub fn post_from_query(responses: Vec<DbResponse>) -> (r: Result<Post, String>)
    ensures
        post_result_view(r) == post_from_responses(responses@),
{
    let ghost items = first_array(responses@);
    let objects = match query_result_into_objects(responses) {
        Ok(objects) => objects,
        Err(e) => {
            return Err(e);
        },
    };
    proof {
        if objects@.len() > 0 {
            assert(item_becomes(items->0[0], objects@[0]));
        }
    }
    let object = match extract_single_object(objects) {
        Ok(object) => object,
        Err(e) => {
            return Err(e);
        },
    };
    Post::try_from(object)
}

/// A record with an "id", a "title" and a "content" field reads as the post
/// with that id (as an integer, cut to 32 bits), that title and that content
/// (as strings); otherwise the first missing field, in that order, is reported.
pub proof fn lemma_post_fields_read(fields: Seq<(String, DbValue)>)
    ensures
        lookup(fields, "id"@) is None ==> post_from_fields(fields) == Err::<PostView, Seq<char>>(
            "Id not found"@,
        ),
        (lookup(fields, "id"@) is Some && lookup(fields, "title"@) is None) ==> post_from_fields(
            fields,
        ) == Err::<PostView, Seq<char>>("title not found"@),
        (lookup(fields, "id"@) is Some && lookup(fields, "title"@) is Some && lookup(
            fields,
            "content"@,
        ) is None) ==> post_from_fields(fields) == Err::<PostView, Seq<char>>("content not found"@),
        (lookup(fields, "id"@) is Some && lookup(fields, "title"@) is Some && lookup(
            fields,
            "content"@,
        ) is Some) ==> post_from_fields(fields) == Ok::<PostView, Seq<char>>(
            PostView {
                id: lookup(fields, "id"@)->0.as_int as i32,
                title: lookup(fields, "title"@)->0.as_string@,
                content: lookup(fields, "content"@)->0.as_string@,
            },
        ),
{
}

/// Reading a post out of a query answer reads the first record of the first
/// statement's array, exactly as reading that record alone does; an answer
/// without an array is "NO.", an empty array "not found", and a first item that
/// is not a record "lol".
pub proof fn lemma_post_query_reads_first_record(responses: Seq<DbResponse>)
    ensures
        first_array(responses) is None ==> post_from_responses(responses) == Err::<
            PostView,
            Seq<char>,
        >("NO."@),
        first_array(responses) matches Some(items) ==> {
            &&& items.len() == 0 ==> post_from_responses(responses) == Err::<PostView, Seq<char>>(
                "not found"@,
            )
            &&& (items.len() > 0 && items[0] is Other) ==> post_from_responses(responses) == Err::<
                PostView,
                Seq<char>,
            >("lol"@)
            &&& items.len() > 0 ==> (items[0] matches QueryItem::Object(o) ==> post_from_responses(
                responses,
            ) == post_from_fields(o.fields@))
        },
{
}

/// The id a create query answers with is the "id" field of its first record,
/// read as an integer and cut to 32 bits.
pub proof fn lemma_created_id_is_first_record_id(responses: Seq<DbResponse>, o: DbObject)
    requires
        first_array(responses) matches Some(items) && items.len() > 0 && items[0] == QueryItem::Object(
            o,
        ),
    ensures
        lookup(o.fields@, "id"@) matches Some(id) ==> created_id_from(responses) == Ok::<
            i32,
            Seq<char>,
        >(id.as_int as i32),
        lookup(o.fields@, "id"@) is None ==> created_id_from(responses) == Err::<i32, Seq<char>>(
            "id field missing"@,
        ),
{
}

/// The mathematical value of a post carries each field as it is.
pub proof fn lemma_post_view(p: Post)
    ensures
        p@.id == p.id,
        p@.title == p.title@,
        p@.content == p.content@,
{
}

/// A read post or error is taken by its mathematical value, unchanged.
pub proof fn lemma_post_result_view(r: Result<Post, String>)
    ensures
        r matches Ok(p) ==> post_result_view(r) == Ok::<PostView, Seq<char>>(p@),
        r matches Err(e) ==> post_result_view(r) == Err::<PostView, Seq<char>>(e@),
{
}

} // verus!
