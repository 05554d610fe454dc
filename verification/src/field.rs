//! Reading the fields of a JSON record: what each kind of field gives, for a
//! field that is there, one that is not, and one that holds something else.
use crate::fault::{
    fault_in, outcome, Decoded, DeserializationError, DeserializationErrorView, Problem,
};
use crate::json::{lemma_object_view, Json, JsonView};
use crate::text::{integer_string, integer_text};
use vstd::prelude::*;

verus! {

/// The value of the first entry named `key` among `members[from..]`.
pub open spec fn member_from(
    members: Seq<(Seq<char>, JsonView)>,
    key: Seq<char>,
    from: int,
) -> Option<JsonView>
    decreases members.len() - from,
{
    if from < 0 || from >= members.len() {
        None
    } else if members[from].0 == key {
        Some(members[from].1)
    } else {
        member_from(members, key, from + 1)
    }
}

/// The value of the field `key` of a record: that of the first entry of
/// that name. A value that is no record has no fields.
pub open spec fn member(doc: JsonView, key: Seq<char>) -> Option<JsonView> {
    match doc {
        JsonView::Object(members) => member_from(members, key, 0),
        _ => None,
    }
}

/// A field that must hold a whole number.
pub open spec fn integer_field(doc: JsonView, key: Seq<char>) -> Decoded<int> {
    match member(doc, key) {
        None => Err(fault_in(key, Problem::Missing)),
        Some(JsonView::Integer(n)) => Ok(n),
        Some(_) => Err(fault_in(key, Problem::NotInteger)),
    }
}

/// A field that holds a whole number, or is absent or null.
pub open spec fn optional_integer_field(doc: JsonView, key: Seq<char>) -> Decoded<Option<int>> {
    match member(doc, key) {
        None => Ok(None),
        Some(JsonView::Null) => Ok(None),
        Some(JsonView::Integer(n)) => Ok(Some(n)),
        Some(_) => Err(fault_in(key, Problem::NotInteger)),
    }
}

/// A field that must hold a text.
pub open spec fn text_field(doc: JsonView, key: Seq<char>) -> Decoded<Seq<char>> {
    match member(doc, key) {
        None => Err(fault_in(key, Problem::Missing)),
        Some(JsonView::Text(text)) => Ok(text),
        Some(_) => Err(fault_in(key, Problem::NotText)),
    }
}

/// A field that holds a text, or is absent or null.
pub open spec fn optional_text_field(doc: JsonView, key: Seq<char>) -> Decoded<
    Option<Seq<char>>,
> {
    match member(doc, key) {
        None => Ok(None),
        Some(JsonView::Null) => Ok(None),
        Some(JsonView::Text(text)) => Ok(Some(text)),
        Some(_) => Err(fault_in(key, Problem::NotText)),
    }
}

/// A field that must hold a number, whole or not; it gives the number's
/// decimal text.
pub open spec fn decimal_field(doc: JsonView, key: Seq<char>) -> Decoded<Seq<char>> {
    match member(doc, key) {
        None => Err(fault_in(key, Problem::Missing)),
        Some(JsonView::Integer(n)) => Ok(integer_text(n)),
        Some(JsonView::Real(text)) => Ok(text),
        Some(_) => Err(fault_in(key, Problem::NotNumber)),
    }
}

/// Whether the value is a record.
pub fn is_record(doc: &Json) -> (r: bool)
    ensures
        r == (doc.deep_view() is Object),
{
    match doc {
        Json::Object(_) => true,
        _ => false,
    }
}

/// Looks a field up in a record.
pub fn lookup<'a>(doc: &'a Json, key: &str) -> (r: Option<&'a Json>)
    ensures
        r.deep_view() == member(doc.deep_view(), key@),
{
    match doc {
        Json::Object(members) => {
            let ghost models = doc.deep_view()->Object_0;
            proof {
                lemma_object_view(*members);
            }
            let wanted = key.to_owned();
            let mut i: usize = 0;
            while i < members.len()
                invariant
                    i <= members@.len(),
                    wanted@ == key@,
                    doc.deep_view() == JsonView::Object(models),
                    models.len() == members@.len(),
                    forall|k: int|
                        0 <= k < members@.len() ==> #[trigger] models[k] == (
                            members@[k].0@,
                            members@[k].1.deep_view(),
                        ),
                    member_from(models, key@, 0) == member_from(models, key@, i as int),
                decreases members@.len() - i,
            {
                assert(models[i as int] == (
                    members@[i as int].0@,
                    members@[i as int].1.deep_view(),
                ));
                if members[i].0 == wanted {
                    return Some(&members[i].1);
                }
                i += 1;
            }
            None
        },
        _ => None,
    }
}

/// Reads a field that must hold a whole number.
pub fn read_integer(doc: &Json, key: &str) -> (r: Result<i64, DeserializationError>)
    ensures
        integer_field(doc.deep_view(), key@) == match r {
            Ok(n) => Ok::<int, DeserializationErrorView>(n as int),
            Err(fault) => Err(fault.deep_view()),
        },
{
    match lookup(doc, key) {
        None => Err(DeserializationError::in_field(key, Problem::Missing)),
        Some(Json::Integer(n)) => Ok(*n),
        Some(_) => Err(DeserializationError::in_field(key, Problem::NotInteger)),
    }
}

/// Reads a field that holds a whole number, or is absent or null.
pub fn read_optional_integer(doc: &Json, key: &str) -> (r: Result<
    Option<i64>,
    DeserializationError,
>)
    ensures
        optional_integer_field(doc.deep_view(), key@) == match r {
            Ok(Some(n)) => Ok::<Option<int>, DeserializationErrorView>(Some(n as int)),
            Ok(None) => Ok(None),
            Err(fault) => Err(fault.deep_view()),
        },
{
    match lookup(doc, key) {
        None => Ok(None),
        Some(Json::Null) => Ok(None),
        Some(Json::Integer(n)) => Ok(Some(*n)),
        Some(_) => Err(DeserializationError::in_field(key, Problem::NotInteger)),
    }
}

/// Reads a field that must hold a text.
pub fn read_text(doc: &Json, key: &str) -> (r: Result<String, DeserializationError>)
    ensures
        outcome(r) == text_field(doc.deep_view(), key@),
{
    match lookup(doc, key) {
        None => Err(DeserializationError::in_field(key, Problem::Missing)),
        Some(Json::Text(text)) => Ok(text.clone()),
        Some(_) => Err(DeserializationError::in_field(key, Problem::NotText)),
    }
}

/// Reads a field that holds a text, or is absent or null.
pub fn read_optional_text(doc: &Json, key: &str) -> (r: Result<
    Option<String>,
    DeserializationError,
>)
    ensures
        outcome(r) == optional_text_field(doc.deep_view(), key@),
{
    match lookup(doc, key) {
        None => Ok(None),
        Some(Json::Null) => Ok(None),
        Some(Json::Text(text)) => Ok(Some(text.clone())),
        Some(_) => Err(DeserializationError::in_field(key, Problem::NotText)),
    }
}

/// Reads a field that must hold a number, as the number's decimal text.
pub fn read_decimal(doc: &Json, key: &str) -> (r: Result<String, DeserializationError>)
    ensures
        outcome(r) == decimal_field(doc.deep_view(), key@),
{
    match lookup(doc, key) {
        None => Err(DeserializationError::in_field(key, Problem::Missing)),
        Some(Json::Integer(n)) => Ok(integer_string(*n)),
        Some(Json::Real(text)) => Ok(text.clone()),
        Some(_) => Err(DeserializationError::in_field(key, Problem::NotNumber)),
    }
}

} // verus!
