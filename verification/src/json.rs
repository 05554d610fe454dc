//! JSON documents as values of the library, and the bridge to `serde_json`.
use vstd::prelude::*;

verus! {

/// A JSON value.
///
/// A number is an [`Json::Integer`] when it is a whole number that fits in
/// `i64`; any other number is a [`Json::Real`] and holds the decimal text
/// that the number prints as when read as a double.
#[derive(Debug, PartialEq)]
pub enum Json {
    Null,
    Bool(bool),
    /// A whole number.
    Integer(i64),
    /// Any other number, as its decimal text.
    Real(String),
    Text(String),
    /// A list: its items, in order.
    Array(Vec<Json>),
    /// A record: its entries, name and value, in order. Where two entries
    /// have one name, the first of them is the field of that name.
    Object(Vec<(String, Json)>),
}

/// The mathematical model of a [`Json`] value.
pub enum JsonView {
    Null,
    Bool(bool),
    Integer(int),
    Real(Seq<char>),
    Text(Seq<char>),
    Array(Seq<JsonView>),
    Object(Seq<(Seq<char>, JsonView)>),
}

impl DeepView for Json {
    type V = JsonView;

    open spec fn deep_view(&self) -> JsonView
        decreases self,
    {
        match self {
            Json::Null => JsonView::Null,
            Json::Bool(b) => JsonView::Bool(*b),
            Json::Integer(n) => JsonView::Integer(*n as int),
            Json::Real(text) => JsonView::Real(text@),
            Json::Text(text) => JsonView::Text(text@),
            Json::Array(items) => JsonView::Array(
                Seq::new(
                    items@.len(),
                    |i: int|
                        if 0 <= i < items@.len() {
                            items@[i].deep_view()
                        } else {
                            JsonView::Null
                        },
                ),
            ),
            Json::Object(members) => JsonView::Object(
                Seq::new(
                    members@.len(),
                    |i: int|
                        (
                            members@[i].0@,
                            if 0 <= i < members@.len() {
                                members@[i].1.deep_view()
                            } else {
                                JsonView::Null
                            },
                        ),
                ),
            ),
        }
    }
}

/// What the model of a list holds: the models of the items, in order.
pub proof fn lemma_array_view(items: Vec<Json>)
    ensures
        Json::Array(items).deep_view() is Array,
        Json::Array(items).deep_view()->Array_0.len() == items@.len(),
        forall|k: int|
            0 <= k < items@.len() ==> (#[trigger] Json::Array(items).deep_view()->Array_0[k])
                == items@[k].deep_view(),
{
}

/// What the model of a record holds: the names and the models of the
/// values, in order.
pub proof fn lemma_object_view(members: Vec<(String, Json)>)
    ensures
        Json::Object(members).deep_view() is Object,
        Json::Object(members).deep_view()->Object_0.len() == members@.len(),
        forall|k: int|
            0 <= k < members@.len() ==> (#[trigger] Json::Object(members).deep_view()->Object_0[k])
                == (members@[k].0@, members@[k].1.deep_view()),
{
}

/// `serde_json::Value`, of which nothing is seen but through the functions
/// below.
#[verifier::external_type_specification]
#[verifier::external_body]
pub struct ExValue(serde_json::Value);

/// What a `serde_json::Value` holds, as the model of the [`Json`] that
/// stands for it: null, a boolean, a text, a list or a record as they are;
/// a number as an `Integer` where `as_i64` gives it, and else as the `Real`
/// of the text that its double prints as; the entries of a record in the
/// order in which its map walks them.
pub uninterp spec fn value_model(value: serde_json::Value) -> JsonView;

/// What `serde_json` reads from a text: the model of the value, or `None`
/// where it refuses the text.
pub uninterp spec fn text_model(text: Seq<char>) -> Option<JsonView>;

/// `serde_json::from_str` to a `Value`: the value that it reads from the
/// text, or `None` where it gives an error. What it reads depends on the
/// text alone.
#[verifier::external_body]
fn read_document(text: &str) -> (r: Option<serde_json::Value>)
    ensures
        match r {
            Some(value) => text_model(text@) == Some(value_model(value)),
            None => text_model(text@) is None,
        },
{
    serde_json::from_str::<serde_json::Value>(text).ok()
}

/// `Value::is_null`: whether the value is null.
#[verifier::external_body]
fn value_is_null(value: &serde_json::Value) -> (r: bool)
    ensures
        r == (value_model(*value) is Null),
{
    value.is_null()
}

/// `Value::as_bool`: the boolean, or `None` for a value of another kind.
#[verifier::external_body]
fn value_bool(value: &serde_json::Value) -> (r: Option<bool>)
    ensures
        match r {
            Some(b) => value_model(*value) == JsonView::Bool(b),
            None => !(value_model(*value) is Bool),
        },
{
    value.as_bool()
}

/// `Value::as_i64`: the number, where the value is a whole number that
/// `i64` holds, and `None` for any other value. Those numbers are the
/// `Integer`s of the model.
#[verifier::external_body]
fn value_integer(value: &serde_json::Value) -> (r: Option<i64>)
    ensures
        match r {
            Some(n) => value_model(*value) == JsonView::Integer(n as int),
            None => !(value_model(*value) is Integer),
        },
{
    value.as_i64()
}

/// `Value::as_f64`, and `to_string` of the double: the decimal text of a
/// number, and `None` for a value that is no number. Every number has a
/// double; a number that is no `Integer` is the `Real` of that text.
#[verifier::external_body]
fn value_real(value: &serde_json::Value) -> (r: Option<String>)
    ensures
        match r {
            Some(text) => value_model(*value) is Integer || value_model(*value) == JsonView::Real(
                text@,
            ),
            None => !(value_model(*value) is Integer) && !(value_model(*value) is Real),
        },
{
    value.as_f64().map(|x| x.to_string())
}

/// `Value::as_str`: the text, or `None` for a value of another kind.
#[verifier::external_body]
fn value_text(value: &serde_json::Value) -> (r: Option<&str>)
    ensures
        match r {
            Some(text) => value_model(*value) == JsonView::Text(text@),
            None => !(value_model(*value) is Text),
        },
{
    value.as_str()
}

/// `Value::as_array`: the items of a list, or `None` for a value of another
/// kind.
#[verifier::external_body]
fn value_items(value: &serde_json::Value) -> (r: Option<&Vec<serde_json::Value>>)
    ensures
        match r {
            Some(items) => value_model(*value) == JsonView::Array(
                Seq::new(items@.len(), |i: int| value_model(items@[i])),
            ),
            None => !(value_model(*value) is Array),
        },
{
    value.as_array()
}

/// `Value::as_object` and `Map::iter`: the entries of a record, name and
/// value, in the order in which the map walks them, or `None` for a value
/// of another kind.
#[verifier::external_body]
fn value_members(value: &serde_json::Value) -> (r: Option<Vec<(&String, &serde_json::Value)>>)
    ensures
        match r {
            Some(members) => value_model(*value) == JsonView::Object(
                Seq::new(members@.len(), |i: int| (members@[i].0@, value_model(*members@[i].1))),
            ),
            None => !(value_model(*value) is Object),
        },
{
    value.as_object().map(|object| object.iter().collect())
}

/// Copies a `serde_json::Value` into a [`Json`].
fn lift(value: &serde_json::Value) -> (json: Json)
    ensures
        json.deep_view() == value_model(*value),
    decreases value_model(*value),
{
    if value_is_null(value) {
        return Json::Null;
    }
    if let Some(b) = value_bool(value) {
        return Json::Bool(b);
    }
    if let Some(n) = value_integer(value) {
        return Json::Integer(n);
    }
    if let Some(text) = value_real(value) {
        return Json::Real(text);
    }
    if let Some(text) = value_text(value) {
        return Json::Text(text.to_owned());
    }
    if let Some(items) = value_items(value) {
        let ghost models = value_model(*value)->Array_0;
        let mut lifted: Vec<Json> = Vec::new();
        let mut i: usize = 0;
        while i < items.len()
            invariant
                i <= items@.len(),
                lifted@.len() == i,
                value_model(*value) == JsonView::Array(models),
                models.len() == items@.len(),
                forall|k: int|
                    0 <= k < items@.len() ==> #[trigger] models[k] == value_model(items@[k]),
                forall|k: int| 0 <= k < i ==> (#[trigger] lifted@[k]).deep_view() == models[k],
            decreases items@.len() - i,
        {
            proof {
                assert(models[i as int] == value_model(items@[i as int]));
                let model = value_model(*value);
                assert(decreases_to!(model => model->Array_0));
                assert(decreases_to!(model->Array_0 => model->Array_0[i as int]));
            }
            let child = lift(&items[i]);
            lifted.push(child);
            i += 1;
        }
        let json = Json::Array(lifted);
        assert(json.deep_view()->Array_0 =~= models);
        return json;
    }
    if let Some(members) = value_members(value) {
        let ghost models = value_model(*value)->Object_0;
        let mut lifted: Vec<(String, Json)> = Vec::new();
        let mut i: usize = 0;
        while i < members.len()
            invariant
                i <= members@.len(),
                lifted@.len() == i,
                value_model(*value) == JsonView::Object(models),
                models.len() == members@.len(),
                forall|k: int|
                    0 <= k < members@.len() ==> #[trigger] models[k] == (
                        members@[k].0@,
                        value_model(*members@[k].1),
                    ),
                forall|k: int|
                    0 <= k < i ==> (#[trigger] lifted@[k]).0@ == models[k].0
                        && lifted@[k].1.deep_view() == models[k].1,
            decreases members@.len() - i,
        {
            proof {
                assert(models[i as int].1 == value_model(*members@[i as int].1));
                let model = value_model(*value);
                assert(decreases_to!(model => model->Object_0));
                assert(decreases_to!(model->Object_0 => model->Object_0[i as int]));
                assert(decreases_to!(model->Object_0[i as int] => model->Object_0[i as int].1));
            }
            let child = lift(members[i].1);
            lifted.push((members[i].0.clone(), child));
            i += 1;
        }
        let json = Json::Object(lifted);
        assert(json.deep_view()->Object_0 =~= models);
        return json;
    }
    // A value is of one of the seven kinds above.
    assert(false);
    Json::Null
}

/// Reads a JSON text: the value it denotes, or `None` where the text is not
/// one JSON document.
pub fn parse_json(text: &str) -> (r: Option<Json>)
    ensures
        r.deep_view() == text_model(text@),
{
    match read_document(text) {
        Some(value) => Some(lift(&value)),
        None => None,
    }
}

} // verus!
