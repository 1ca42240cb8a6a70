use crate::text::str_equals;
use vstd::prelude::*;

verus! {

/// A field of a stored record, as the queries read it: its integer reading,
/// its string reading, and its rendering as text.
pub struct DbValue {
    pub as_int: i64,
    pub as_string: String,
    pub rendered: String,
}

/// A stored record: its fields, each under its key.
pub struct DbObject {
    pub fields: Vec<(String, DbValue)>,
}

/// One element of a query's result array.
pub enum QueryItem {
    Object(DbObject),
    Other,
}

/// What one statement of a query returned.
pub enum QueryValue {
    Array(Vec<QueryItem>),
    Other,
}

/// The answer to one statement of a query: a value, or the error message.
pub struct DbResponse {
    pub result: Result<QueryValue, String>,
}

/// The field stored under `key`: the first one that carries it.
pub open spec fn lookup(fields: Seq<(String, DbValue)>, key: Seq<char>) -> Option<DbValue>
    decreases fields.len(),
{
    if fields.len() == 0 {
        None
    } else if fields[0].0@ == key {
        Some(fields[0].1)
    } else {
        lookup(fields.drop_first(), key)
    }
}

/// The items of the array the first statement returned, if it returned one.
pub open spec fn first_array(responses: Seq<DbResponse>) -> Option<Seq<QueryItem>> {
    if responses.len() > 0 {
        match responses[0].result {
            Ok(QueryValue::Array(items)) => Some(items@),
            _ => None,
        }
    } else {
        None
    }
}

/// Whether `r` is what an item of a result array turns into: the record itself,
/// or the error "lol" for anything that is not a record.
pub open spec fn item_becomes(item: QueryItem, r: Result<DbObject, String>) -> bool {
    match item {
        QueryItem::Object(o) => r == Ok::<DbObject, String>(o),
        QueryItem::Other => r matches Err(e) && e@ == "lol"@,
    }
}

/// Whether `r` is what `query_result_into_objects` makes of `responses`.
pub open spec fn objects_of(responses: Seq<DbResponse>, r: Result<Vec<Result<DbObject, String>>, String>) -> bool {
    match first_array(responses) {
        Some(items) => r matches Ok(objects) && objects@.len() == items.len() && (forall|i: int|
            0 <= i < items.len() ==> item_becomes(#[trigger] items[i], objects@[i])),
        None => r matches Err(e) && e@ == "NO."@,
    }
}

impl DbObject {
    /// The field stored under `key`, if any.
    pub fn get(&self, key: &str) -> (r: Option<&DbValue>)
        ensures
            r is Some == lookup(self.fields@, key@) is Some,
            r matches Some(v) ==> *v == lookup(self.fields@, key@)->0,
    {
        let n: usize = self.fields.len();
        let mut i: usize = 0;
        assert(self.fields@.subrange(0, n as int) =~= self.fields@);
        while i < n
            invariant
                n == self.fields@.len(),
                i <= n,
                lookup(self.fields@, key@) == lookup(self.fields@.subrange(i as int, n as int), key@),
            decreases n - i,
        {
            assert(self.fields@.subrange(i as int, n as int).drop_first() =~= self.fields@.subrange(
                i + 1,
                n as int,
            ));
            if str_equals(self.fields[i].0.as_str(), key) {
                return Some(&self.fields[i].1);
            }
            i = i + 1;
        }
        None
    }
}

/// Takes the result array of the first statement and turns each of its items
/// into a record, or into the error "lol" where it is not one. Fails with "NO."
/// when there is no statement or the first one did not return an array.
pub fn query_result_into_objects(responses: Vec<DbResponse>) -> (r: Result<Vec<Result<DbObject, String>>, String>)
    ensures
        objects_of(responses@, r),
{
    let mut responses = responses;
    if responses.len() == 0 {
        return Err("NO.".to_owned());
    }
    let first = responses.remove(0);
    let values = match first.result {
        Ok(QueryValue::Array(values)) => values,
        _ => {
            return Err("NO.".to_owned());
        },
    };
    let ghost items = values@;
    let mut objects: Vec<Result<DbObject, String>> = Vec::new();
    for item in it: values.into_iter()
        invariant
            it.seq() == items,
            objects@.len() == it.index(),
            forall|j: int| 0 <= j < it.index() ==> item_becomes(#[trigger] items[j], objects@[j]),
    {
        let ghost k = it.index();
        match item {
            QueryItem::Object(object) => objects.push(Ok(object)),
            QueryItem::Other => objects.push(Err("lol".to_owned())),
        }
        assert(item_becomes(items[k as int], objects@[k as int]));
    }
    Ok(objects)
}

/// The first of the records, or the error that stands in its place; "not found"
/// when there is none.
pub fn extract_single_object(objects: Vec<Result<DbObject, String>>) -> (r: Result<DbObject, String>)
    ensures
        objects@.len() == 0 ==> (r matches Err(e) && e@ == "not found"@),
        objects@.len() > 0 ==> r == objects@[0],
{
    let mut objects = objects;
    if objects.len() == 0 {
        return Err("not found".to_owned());
    }
    objects.remove(0)
}

/// `lookup` finds the first field stored under the key, and nothing when no
/// field carries it.
pub proof fn lemma_lookup_finds_first(fields: Seq<(String, DbValue)>, key: Seq<char>)
    ensures
        lookup(fields, key) is None <==> (forall|i: int| 0 <= i < fields.len() ==> #[trigger] fields[i].0@ != key),
        lookup(fields, key) matches Some(v) ==> exists|i: int|
            0 <= i < fields.len() && #[trigger] fields[i].0@ == key && fields[i].1 == v && (forall|j: int|
                0 <= j < i ==> fields[j].0@ != key),
    decreases fields.len(),
{
    if fields.len() > 0 {
        let rest = fields.drop_first();
        lemma_lookup_finds_first(rest, key);
        if fields[0].0@ == key {
            assert(fields[0].0@ == key && fields[0].1 == lookup(fields, key)->0);
        } else {
            assert forall|i: int| 0 <= i < fields.len() && (forall|k: int| 0 <= k < rest.len() ==> #[trigger] rest[k].0@ != key) implies #[trigger] fields[i].0@ != key by {
                if i > 0 {
                    assert(rest[i - 1] == fields[i]);
                }
            }
            if lookup(fields, key) is None {
                assert forall|k: int| 0 <= k < rest.len() implies #[trigger] rest[k].0@ != key by {
                    assert(rest[k] == fields[k + 1]);
                }
            }
            if lookup(fields, key) is Some {
                let v = lookup(fields, key)->0;
                let i = choose|i: int|
                    0 <= i < rest.len() && #[trigger] rest[i].0@ == key && rest[i].1 == v && (forall|j: int|
                        0 <= j < i ==> rest[j].0@ != key);
                assert(fields[i + 1] == rest[i]);
                assert forall|j: int| 0 <= j < i + 1 implies fields[j].0@ != key by {
                    if j > 0 {
                        assert(fields[j] == rest[j - 1]);
                    }
                }
                assert(fields[i + 1].0@ == key);
            }
        }
    }
}

/// The items of the first statement's array become, in order, their records,
/// or the error "lol" where an item is not a record; any other answer is "NO.".
pub proof fn lemma_objects_keep_items_in_order(
    responses: Seq<DbResponse>,
    r: Result<Vec<Result<DbObject, String>>, String>,
    i: int,
)
    requires
        objects_of(responses, r),
    ensures
        first_array(responses) is None ==> (r matches Err(e) && e@ == "NO."@),
        first_array(responses) matches Some(items) ==> {
            &&& r is Ok
            &&& r->Ok_0@.len() == items.len()
            &&& 0 <= i < items.len() ==> (items[i] matches QueryItem::Object(o) ==> r->Ok_0@[i]
                == Ok::<DbObject, String>(o))
            &&& (0 <= i < items.len() && items[i] is Other) ==> (r->Ok_0@[i] matches Err(e) && e@
                == "lol"@)
        },
{
    if first_array(responses) is Some && 0 <= i < first_array(responses)->0.len() {
        assert(item_becomes(first_array(responses)->0[i], r->Ok_0@[i]));
    }
}

/// Only the first statement's answer counts, and only when it is an array.
pub proof fn lemma_first_array(responses: Seq<DbResponse>)
    ensures
        responses.len() == 0 ==> first_array(responses) is None,
        responses.len() > 0 ==> (responses[0].result matches Ok(QueryValue::Array(items))
            ==> first_array(responses) == Some(items@)),
        responses.len() > 0 ==> (!(responses[0].result matches Ok(QueryValue::Array(_)))
            ==> first_array(responses) is None),
{
}

} // verus!
