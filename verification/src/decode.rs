//! Reading records out of JSON values.
//!
//! A record type says in [`Record::read`] what a JSON value holds of it: the
//! record's model, or the first fault, fields taken in the order in which
//! the record lists them. [`Record::decode`] computes that. The functions
//! here read a record, an optional record or a list of records out of a
//! field of a surrounding record.
use crate::fault::{
    fault_here, fault_in, outcome, Decoded, DeserializationError, PathStepView, Problem,
};
use crate::field::{lookup, member};
use crate::json::{lemma_array_view, Json, JsonView};
use vstd::prelude::*;

verus! {

/// A record that can be read out of a JSON value.
pub trait Record: Sized + DeepView {
    /// What the value holds of this record.
    spec fn read(doc: JsonView) -> Decoded<Self::V>;

    /// Reads the record out of the value.
    fn decode(doc: &Json) -> (r: Result<Self, DeserializationError>)
        ensures
            outcome(r) == Self::read(doc.deep_view()),
    ;
}

/// A fault found below the field `key`, or the value found there.
pub open spec fn below<T>(key: Seq<char>, read: Decoded<T>) -> Decoded<T> {
    match read {
        Ok(value) => Ok(value),
        Err(fault) => Err(fault.under(PathStepView::Field(key))),
    }
}

/// A field that must hold a record.
pub open spec fn record_field<T: Record>(doc: JsonView, key: Seq<char>) -> Decoded<T::V> {
    match member(doc, key) {
        None => Err(fault_in(key, Problem::Missing)),
        Some(value) => below(key, T::read(value)),
    }
}

/// A field that holds a record, or is absent or null.
pub open spec fn optional_record_field<T: Record>(doc: JsonView, key: Seq<char>) -> Decoded<
    Option<T::V>,
> {
    match member(doc, key) {
        None => Ok(None),
        Some(JsonView::Null) => Ok(None),
        Some(value) => match T::read(value) {
            Ok(record) => Ok(Some(record)),
            Err(fault) => Err(fault.under(PathStepView::Field(key))),
        },
    }
}

/// The records of a list of values, in order; or the fault of the first
/// value that holds none, under its index.
pub open spec fn records_of<T: Record>(items: Seq<JsonView>) -> Decoded<Seq<T::V>>
    decreases items.len(),
{
    if items.len() == 0 {
        Ok(Seq::empty())
    } else {
        match records_of::<T>(items.drop_last()) {
            Err(fault) => Err(fault),
            Ok(front) => match T::read(items.last()) {
                Ok(record) => Ok(front.push(record)),
                Err(fault) => Err(fault.under(PathStepView::Index(items.len() - 1))),
            },
        }
    }
}

/// A field that must hold a list of records.
pub open spec fn list_field<T: Record>(doc: JsonView, key: Seq<char>) -> Decoded<Seq<T::V>> {
    match member(doc, key) {
        None => Err(fault_in(key, Problem::Missing)),
        Some(JsonView::Array(items)) => below(key, records_of::<T>(items)),
        Some(_) => Err(fault_in(key, Problem::NotList)),
    }
}

/// The fault of a value that should be a record and is none.
pub open spec fn not_a_record<T>() -> Decoded<T> {
    Err(fault_here(Problem::NotRecord))
}

/// Reads a field that must hold a record.
pub fn decode_field<T: Record>(doc: &Json, key: &str) -> (r: Result<T, DeserializationError>)
    ensures
        outcome(r) == record_field::<T>(doc.deep_view(), key@),
{
    match lookup(doc, key) {
        None => Err(DeserializationError::in_field(key, Problem::Missing)),
        Some(value) => match T::decode(value) {
            Ok(record) => Ok(record),
            Err(fault) => Err(fault.under_field(key)),
        },
    }
}

/// Reads a field that holds a record, or is absent or null.
pub fn decode_optional_field<T: Record>(doc: &Json, key: &str) -> (r: Result<
    Option<T>,
    DeserializationError,
>)
    ensures
        outcome(r) == optional_record_field::<T>(doc.deep_view(), key@),
{
    match lookup(doc, key) {
        None => Ok(None),
        Some(Json::Null) => Ok(None),
        Some(value) => match T::decode(value) {
            Ok(record) => Ok(Some(record)),
            Err(fault) => Err(fault.under_field(key)),
        },
    }
}

/// Reads the records of a list of values.
pub fn decode_list<T: Record>(items: &Vec<Json>) -> (r: Result<Vec<T>, DeserializationError>)
    ensures
        outcome(r) == records_of::<T>(items.deep_view()),
{
    let ghost models = items.deep_view();
    let mut records: Vec<T> = Vec::new();
    let mut i: usize = 0;
    assert(models.take(0) =~= Seq::empty());
    assert(records.deep_view() =~= Seq::empty());
    while i < items.len()
        invariant
            i <= items@.len(),
            models == items.deep_view(),
            records_of::<T>(models.take(i as int)) == Decoded::<Seq<T::V>>::Ok(
                records.deep_view(),
            ),
        decreases items@.len() - i,
    {
        let ghost before = records.deep_view();
        proof {
            let longer = models.take(i + 1);
            assert(longer.drop_last() =~= models.take(i as int));
            assert(longer.last() == items@[i as int].deep_view());
        }
        match T::decode(&items[i]) {
            Ok(record) => {
                records.push(record);
                assert(records.deep_view() =~= before.push(record.deep_view()));
            },
            Err(fault) => {
                proof {
                    lemma_fault_stays::<T>(models, i + 1);
                }
                return Err(fault.under_index(i));
            },
        }
        i += 1;
    }
    assert(models.take(i as int) =~= models);
    Ok(records)
}

/// Once a prefix of a list gives a fault, the whole list gives that fault.
pub proof fn lemma_fault_stays<T: Record>(items: Seq<JsonView>, k: int)
    requires
        0 <= k <= items.len(),
        records_of::<T>(items.take(k)) is Err,
    ensures
        records_of::<T>(items) == records_of::<T>(items.take(k)),
    decreases items.len() - k,
{
    if k == items.len() {
        assert(items.take(k) =~= items);
    } else {
        assert(items.take(k + 1).drop_last() =~= items.take(k));
        lemma_fault_stays::<T>(items, k + 1);
    }
}

/// Reads a field that must hold a list of records.
pub fn decode_list_field<T: Record>(doc: &Json, key: &str) -> (r: Result<
    Vec<T>,
    DeserializationError,
>)
    ensures
        outcome(r) == list_field::<T>(doc.deep_view(), key@),
{
    match lookup(doc, key) {
        None => Err(DeserializationError::in_field(key, Problem::Missing)),
        Some(Json::Array(items)) => {
            proof {
                lemma_array_view(*items);
                assert(Json::Array(*items).deep_view()->Array_0 =~= items.deep_view());
            }
            match decode_list::<T>(items) {
                Ok(records) => Ok(records),
                Err(fault) => Err(fault.under_field(key)),
            }
        },
        Some(_) => Err(DeserializationError::in_field(key, Problem::NotList)),
    }
}

} // verus!
