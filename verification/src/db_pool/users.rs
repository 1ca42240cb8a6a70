use super::utils::{
    extract_single_object, first_array, item_becomes, lookup, query_result_into_objects, DbObject,
    DbResponse, DbValue, QueryItem,
};
use crate::text::str_equals;
use vstd::prelude::*;

verus! {

/// The query that stores a new user; `$data` holds name, email and password hash.
pub const CREATE_USER_QUERY: &'static str = "CREATE user CONTENT $data";

/// The query that reads a user by name.
pub const GET_USER_QUERY: &'static str = "SELECT * FROM user WHERE name = $name";

/// The query that looks for users holding a given name or email.
pub const UNIQUENESS_QUERY: &'static str = "SELECT name, email FROM user WHERE name = $name OR email = $email";

/// A user as the database holds it.
pub struct User {
    pub id: i32,
    pub name: String,
    pub email: String,
    pub password_hash: String,
}

/// `User` as a mathematical value.
pub struct UserView {
    pub id: i32,
    pub name: Seq<char>,
    pub email: Seq<char>,
    pub password_hash: Seq<char>,
}

impl View for User {
    type V = UserView;

    open spec fn view(&self) -> UserView {
        UserView {
            id: self.id,
            name: self.name@,
            email: self.email@,
            password_hash: self.password_hash@,
        }
    }
}

/// Whether a new user's name and email are still free.
#[derive(Debug, Clone, Copy, PartialEq, Eq)]
pub struct CredentialUniqueness {
    pub name: bool,
    pub email: bool,
}

impl Default for CredentialUniqueness {
    fn default() -> (r: Self)
        ensures
            r.name,
            r.email,
    {
        CredentialUniqueness { name: true, email: true }
    }
}

/// A result with its string parts taken by their view.
pub open spec fn user_result_view(r: Result<User, String>) -> Result<UserView, Seq<char>> {
    match r {
        Ok(u) => Ok(u@),
        Err(e) => Err(e@),
    }
}

/// The user a record holds: "id" read as an integer and cut to 32 bits, the other
/// fields read as strings; the first missing field is reported.
pub open spec fn user_from_fields(fields: Seq<(String, DbValue)>) -> Result<UserView, Seq<char>> {
    match lookup(fields, "id"@) {
        None => Err("Id not found"@),
        Some(id) => match lookup(fields, "name"@) {
            None => Err("Name not found"@),
            Some(name) => match lookup(fields, "email"@) {
                None => Err("Email not found"@),
                Some(email) => match lookup(fields, "password_hash"@) {
                    None => Err("Password hash not found"@),
                    Some(hash) => Ok(
                        UserView {
                            id: id.as_int as i32,
                            name: name.as_string@,
                            email: email.as_string@,
                            password_hash: hash.as_string@,
                        },
                    ),
                },
            },
        },
    }
}

/// The user a query answered with: the first record of the answer.
pub open spec fn user_from_responses(responses: Seq<DbResponse>) -> Result<UserView, Seq<char>> {
    match first_array(responses) {
        None => Err("NO."@),
        Some(items) => if items.len() == 0 {
            Err("not found"@)
        } else {
            match items[0] {
                QueryItem::Other => Err("lol"@),
                QueryItem::Object(o) => user_from_fields(o.fields@),
            }
        },
    }
}

/// What the uniqueness query says of a name and an email. No matching user
/// leaves both free. Otherwise the first matching user decides: the name is free
/// when that user's name, rendered as text, differs from it, and likewise the
/// email.
pub open spec fn uniqueness_from_responses(
    responses: Seq<DbResponse>,
    name: Seq<char>,
    email: Seq<char>,
) -> Result<CredentialUniqueness, Seq<char>> {
    match first_array(responses) {
        None => Err("NO."@),
        Some(items) => if items.len() == 0 {
            Ok(CredentialUniqueness { name: true, email: true })
        } else {
            match items[0] {
                QueryItem::Other => Err("lol"@),
                QueryItem::Object(o) => match lookup(o.fields@, "name"@) {
                    None => Err("name field doesn't exist"@),
                    Some(n) => match lookup(o.fields@, "email"@) {
                        None => Err("email field doesn't exist"@),
                        Some(e) => Ok(
                            CredentialUniqueness { name: n.rendered@ != name, email: e.rendered@ != email },
                        ),
                    },
                },
            }
        },
    }
}

impl User {
    /// Reads a user out of a stored record.
    pub fn try_from(object: DbObject) -> (r: Result<User, String>)
        ensures
            user_result_view(r) == user_from_fields(object.fields@),
    {
        let id: i32 = match object.get("id") {
            Some(v) => v.as_int as i32,
            None => {
                return Err("Id not found".to_owned());
            },
        };
        let name = match object.get("name") {
            Some(v) => v.as_string.clone(),
            None => {
                return Err("Name not found".to_owned());
            },
        };
        let email = match object.get("email") {
            Some(v) => v.as_string.clone(),
            None => {
                return Err("Email not found".to_owned());
            },
        };
        let password_hash = match object.get("password_hash") {
            Some(v) => v.as_string.clone(),
            None => {
                return Err("Password hash not found".to_owned());
            },
        };
        Ok(User { id, name, email, password_hash })
    }
}

/// Reads a user out of the answer to the create or the read query.
pub fn user_from_query(responses: Vec<DbResponse>) -> (r: Result<User, String>)
    ensures
        user_result_view(r) == user_from_responses(responses@),
{
    let ghost items = first_array(responses@);
    let objects = match query_result_into_objects(responses) {
        Ok(objects) => objects,
        Err(e) => {
            return Err(e);
        },
    };
    proof {
        if objects@.len() > 0 {
            assert(item_becomes(items->0[0], objects@[0]));
        }
    }
    let object = match extract_single_object(objects) {
        Ok(object) => object,
        Err(e) => {
            return Err(e);
        },
    };
    User::try_from(object)
}

/// Reads the answer to the uniqueness query for `name` and `email`.
pub fn uniqueness_from_query(responses: Vec<DbResponse>, name: &str, email: &str) -> (r: Result<
    CredentialUniqueness,
    String,
>)
    ensures
        match r {
            Ok(u) => uniqueness_from_responses(responses@, name@, email@) == Ok::<
                CredentialUniqueness,
                Seq<char>,
            >(u),
            Err(e) => uniqueness_from_responses(responses@, name@, email@) == Err::<
                CredentialUniqueness,
                Seq<char>,
            >(e@),
        },
{
    let ghost items = first_array(responses@);
    let objects = match query_result_into_objects(responses) {
        Ok(objects) => objects,
        Err(e) => {
            return Err(e);
        },
    };
    if objects.len() == 0 {
        return Ok(CredentialUniqueness::default());
    }
    proof {
        assert(item_becomes(items->0[0], objects@[0]));
    }
    let mut objects = objects;
    let object = match objects.remove(0) {
        Ok(object) => object,
        Err(e) => {
            return Err(e);
        },
    };
    let name_taken_by = match object.get("name") {
        Some(v) => str_equals(v.rendered.as_str(), name),
        None => {
            return Err("name field doesn't exist".to_owned());
        },
    };
    let email_taken_by = match object.get("email") {
        Some(v) => str_equals(v.rendered.as_str(), email),
        None => {
            return Err("email field doesn't exist".to_owned());
        },
    };
    Ok(CredentialUniqueness { name: !name_taken_by, email: !email_taken_by })
}

/// A record with "id", "name", "email" and "password_hash" fields reads as the
/// user with that id (as an integer, cut to 32 bits) and those strings, each
/// from its own field; otherwise the first missing field, in that order, is
/// reported.
pub proof fn lemma_user_fields_read(fields: Seq<(String, DbValue)>)
    ensures
        lookup(fields, "id"@) is None ==> user_from_fields(fields) == Err::<UserView, Seq<char>>(
            "Id not found"@,
        ),
        (lookup(fields, "id"@) is Some && lookup(fields, "name"@) is None) ==> user_from_fields(
            fields,
        ) == Err::<UserView, Seq<char>>("Name not found"@),
        (lookup(fields, "id"@) is Some && lookup(fields, "name"@) is Some && lookup(
            fields,
            "email"@,
        ) is None) ==> user_from_fields(fields) == Err::<UserView, Seq<char>>("Email not found"@),
        (lookup(fields, "id"@) is Some && lookup(fields, "name"@) is Some && lookup(
            fields,
            "email"@,
        ) is Some && lookup(fields, "password_hash"@) is None) ==> user_from_fields(fields)
            == Err::<UserView, Seq<char>>("Password hash not found"@),
        (lookup(fields, "id"@) is Some && lookup(fields, "name"@) is Some && lookup(
            fields,
            "email"@,
        ) is Some && lookup(fields, "password_hash"@) is Some) ==> user_from_fields(fields) == Ok::<
            UserView,
            Seq<char>,
        >(
            UserView {
                id: lookup(fields, "id"@)->0.as_int as i32,
                name: lookup(fields, "name"@)->0.as_string@,
                email: lookup(fields, "email"@)->0.as_string@,
                password_hash: lookup(fields, "password_hash"@)->0.as_string@,
            },
        ),
{
}

/// Reading a user out of a query answer reads the first record of the first
/// statement's array, exactly as reading that record alone does; an answer
/// without an array is "NO.", an empty array "not found", and a first item that
/// is not a record "lol".
pub proof fn lemma_user_query_reads_first_record(responses: Seq<DbResponse>)
    ensures
        first_array(responses) is None ==> user_from_responses(responses) == Err::<
            UserView,
            Seq<char>,
        >("NO."@),
        first_array(responses) matches Some(items) ==> {
            &&& items.len() == 0 ==> user_from_responses(responses) == Err::<UserView, Seq<char>>(
                "not found"@,
            )
            &&& (items.len() > 0 && items[0] is Other) ==> user_from_responses(responses) == Err::<
                UserView,
                Seq<char>,
            >("lol"@)
            &&& items.len() > 0 ==> (items[0] matches QueryItem::Object(o) ==> user_from_responses(
                responses,
            ) == user_from_fields(o.fields@))
        },
{
}

/// When the uniqueness query finds a user, that first user decides: the name is
/// free exactly when the user's rendered name differs from the name asked
/// about, and the email exactly when the user's rendered email differs from the
/// email asked about.
pub proof fn lemma_uniqueness_reads_first_row(
    responses: Seq<DbResponse>,
    o: DbObject,
    name: Seq<char>,
    email: Seq<char>,
)
    requires
        first_array(responses) matches Some(items) && items.len() > 0 && items[0] == QueryItem::Object(
            o,
        ),
    ensures
        lookup(o.fields@, "name"@) is None ==> uniqueness_from_responses(responses, name, email)
            == Err::<CredentialUniqueness, Seq<char>>("name field doesn't exist"@),
        (lookup(o.fields@, "name"@) is Some && lookup(o.fields@, "email"@) is None)
            ==> uniqueness_from_responses(responses, name, email) == Err::<
            CredentialUniqueness,
            Seq<char>,
        >("email field doesn't exist"@),
        (lookup(o.fields@, "name"@) is Some && lookup(o.fields@, "email"@) is Some)
            ==> uniqueness_from_responses(responses, name, email) == Ok::<
            CredentialUniqueness,
            Seq<char>,
        >(
            CredentialUniqueness {
                name: lookup(o.fields@, "name"@)->0.rendered@ != name,
                email: lookup(o.fields@, "email"@)->0.rendered@ != email,
            },
        ),
{
}

/// No user matching leaves both the name and the email free.
pub proof fn lemma_no_match_leaves_both_free(responses: Seq<DbResponse>, name: Seq<char>, email: Seq<char>)
    requires
        first_array(responses) matches Some(items) && items.len() == 0,
    ensures
        uniqueness_from_responses(responses, name, email) == Ok::<CredentialUniqueness, Seq<char>>(
            CredentialUniqueness { name: true, email: true },
        ),
{
}

/// An email equal to the found user's rendered email is reported taken, and a
/// name equal to the found user's rendered name is reported taken, whatever the
/// other argument.
pub proof fn lemma_equal_rendering_is_taken(
    responses: Seq<DbResponse>,
    o: DbObject,
    name: Seq<char>,
    email: Seq<char>,
)
    requires
        first_array(responses) matches Some(items) && items.len() > 0 && items[0] == QueryItem::Object(
            o,
        ),
    ensures
        (lookup(o.fields@, "email"@) matches Some(e) && e.rendered@ == email && lookup(
            o.fields@,
            "name"@,
        ) is Some) ==> (uniqueness_from_responses(responses, name, email) matches Ok(u) && !u.email),
        (lookup(o.fields@, "name"@) matches Some(n) && n.rendered@ == name && lookup(
            o.fields@,
            "email"@,
        ) is Some) ==> (uniqueness_from_responses(responses, name, email) matches Ok(u) && !u.name),
{
}

/// The email flag depends on the email asked about only, and the name flag on
/// the name only.
pub proof fn lemma_flags_are_independent(
    responses: Seq<DbResponse>,
    name1: Seq<char>,
    name2: Seq<char>,
    email1: Seq<char>,
    email2: Seq<char>,
)
    ensures
        uniqueness_from_responses(responses, name1, email1) is Ok <==> uniqueness_from_responses(
            responses,
            name2,
            email2,
        ) is Ok,
        uniqueness_from_responses(responses, name1, email1) is Ok ==> uniqueness_from_responses(
            responses,
            name1,
            email1,
        )->Ok_0.email == uniqueness_from_responses(responses, name2, email1)->Ok_0.email,
        uniqueness_from_responses(responses, name1, email1) is Ok ==> uniqueness_from_responses(
            responses,
            name1,
            email1,
        )->Ok_0.name == uniqueness_from_responses(responses, name1, email2)->Ok_0.name,
{
}

/// The mathematical value of a user carries each field as it is.
pub proof fn lemma_user_view(p: User)
    ensures
        p@.id == p.id,
        p@.name == p.name@,
        p@.email == p.email@,
        p@.password_hash == p.password_hash@,
{
}

/// A read user or error is taken by its mathematical value, unchanged.
pub proof fn lemma_user_result_view(r: Result<User, String>)
    ensures
        r matches Ok(p) ==> user_result_view(r) == Ok::<UserView, Seq<char>>(p@),
        r matches Err(e) ==> user_result_view(r) == Err::<UserView, Seq<char>>(e@),
{
}

} // verus!
