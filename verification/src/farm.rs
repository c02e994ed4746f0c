//! One farm record.

use crate::json::{is_object, json_of, Json};
use serde_json::Value;
use vstd::prelude::*;

verus! {

/// A farm record as it travels between the user interface and the cache file:
/// one JSON object. What its members mean is the user interface's business;
/// here a record is carried, stored and handed back unchanged.
#[derive(Debug, PartialEq, Eq)]
pub struct Farm {
    record: Value,
}

impl Clone for Farm {
    fn clone(&self) -> (r: Farm)
        ensures
            r@ == self@,
    {
        proof {
            use_type_invariant(self);
        }
        Farm { record: self.record.clone() }
    }
}

impl View for Farm {
    type V = Json;

    closed spec fn view(&self) -> Json {
        json_of(self.record)
    }
}

impl Farm {
    #[verifier::type_invariant]
    spec fn holds_object(self) -> bool {
        json_of(self.record) is Object
    }

    /// Accepts a JSON value as a record if and only if it is an object.
    pub fn new(record: Value) -> (r: Option<Farm>)
        ensures
            match r {
                Some(farm) => farm@ == json_of(record) && json_of(record) is Object,
                None => !(json_of(record) is Object),
            },
    {
        if is_object(&record) {
            Some(Farm { record })
        } else {
            None
        }
    }

    /// The record's JSON object.
    pub fn as_value(&self) -> (r: &Value)
        ensures
            json_of(*r) == self@,
            self@ is Object,
    {
        proof {
            use_type_invariant(self);
        }
        &self.record
    }

    /// Gives the record's JSON object away.
    pub fn into_value(self) -> (r: Value)
        ensures
            json_of(r) == self@,
            self@ is Object,
    {
        proof {
            use_type_invariant(&self);
        }
        self.record
    }
}

/// What each record of a list holds.
pub open spec fn records_of(farms: Seq<Farm>) -> Seq<Json> {
    farms.map_values(|farm: Farm| farm@)
}

/// Whether every item is a JSON object, as a record must be.
pub open spec fn all_records(items: Seq<Json>) -> bool {
    forall|i: int| 0 <= i < items.len() ==> items[i] is Object
}

} // verus!
