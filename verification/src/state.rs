//! The persisted state and the JSON document that stores it.

use crate::farm::{all_records, records_of, Farm};
use crate::job::{fresh_job, SaveJob};
use crate::json::{
    array_value, into_items, json_of, json_seq, member_of, object_value, parse_text,
    parsed_text, pretty_printed, pretty_text, take_member, Json,
};
use crate::location::{state_file_lies_in_cur_dir, state_file_of, Location, STATE_FILE};
use serde_json::Value;
use vstd::prelude::*;

verus! {

/// How long the debounced save holds still after writing, in seconds.
pub const DEBOUNCE_SECONDS: u64 = 2;

/// Why a stored state could not be loaded.
#[derive(Clone, Copy, Debug, PartialEq, Eq)]
pub enum LoadError {
    /// The file could not be opened or read.
    File,
    /// The file does not hold a state document.
    Format,
}

/// Why a state could not be saved.
#[derive(Clone, Copy, Debug, PartialEq, Eq)]
pub enum SaveError {
    /// The directory or the file could not be created or opened.
    File,
    /// The text could not be written in full.
    Write,
    /// The state could not be turned into JSON text.
    Format,
}

/// Everything the application persists: the farm records, in their order.
#[derive(Debug, PartialEq, Eq)]
pub struct SavedState {
    pub farms: Vec<Farm>,
}

impl Clone for SavedState {
    fn clone(&self) -> (r: SavedState)
        ensures
            r@ == self@,
    {
        let mut farms: Vec<Farm> = Vec::new();
        let mut i: usize = 0;
        while i < self.farms.len()
            invariant
                i <= self.farms@.len(),
                farms@.len() == i,
                forall|k: int| 0 <= k < i ==> (#[trigger] farms@[k])@ == self.farms@[k]@,
            decreases self.farms@.len() - i,
        {
            farms.push(self.farms[i].clone());
            i += 1;
        }
        assert(records_of(farms@) =~= records_of(self.farms@));
        SavedState { farms }
    }
}

impl View for SavedState {
    type V = Seq<Json>;

    open spec fn view(&self) -> Seq<Json> {
        records_of(self.farms@)
    }
}

/// The key under which a state document keeps its records.
pub open spec fn farms_key() -> Seq<char> {
    "farms"@
}

/// The document that stores `records`: one object whose only member, `farms`,
/// is the array of the records.
pub open spec fn document_of(records: Seq<Json>) -> Json {
    Json::Object(seq![(farms_key(), Json::Array(records))])
}

/// The records that a document stores. A document is an object with a member
/// `farms` that is an array of objects; other members do not count. Anything
/// else stores nothing, not even the records that would have been well-formed.
pub open spec fn farms_in(doc: Json) -> Option<Seq<Json>> {
    match member_of(doc, farms_key()) {
        Some(Json::Array(items)) => if all_records(items) {
            Some(items)
        } else {
            None
        },
        _ => None,
    }
}

/// The text that stores `records`, pretty-printed, if it can be written.
pub open spec fn encoded(records: Seq<Json>) -> Option<Seq<char>> {
    pretty_printed(document_of(records))
}

/// The records stored in `text`, if it is JSON and a state document.
pub open spec fn decoded(text: Seq<char>) -> Option<Seq<Json>> {
    match parsed_text(text) {
        Some(doc) => farms_in(doc),
        None => None,
    }
}

/// What a read of a file gave, as plain text.
pub open spec fn text_of(contents: Option<&str>) -> Option<Seq<char>> {
    match contents {
        Some(text) => Some(text@),
        None => None,
    }
}

/// The state that a read of the state file amounts to: `contents` is the
/// file's text, or `None` where the file could not be opened or read.
pub open spec fn restored(contents: Option<Seq<char>>) -> Result<Seq<Json>, LoadError> {
    match contents {
        None => Err(LoadError::File),
        Some(text) => match decoded(text) {
            Some(records) => Ok(records),
            None => Err(LoadError::Format),
        },
    }
}

impl Default for SavedState {
    /// The state before anything was saved: no records.
    fn default() -> (state: SavedState)
        ensures
            state.farms@ == Seq::<Farm>::empty(),
            state@ == Seq::<Json>::empty(),
    {
        SavedState { farms: Vec::new() }
    }
}

impl SavedState {
    /// Wraps the records into a state document.
    pub fn into_document(self) -> (doc: Value)
        ensures
            json_of(doc) == document_of(self@),
    {
        let ghost farms = self.farms@;
        let mut values: Vec<Value> = Vec::new();
        for farm in it: self.farms
            invariant
                it.seq() == farms,
                values@.len() == it.index(),
                forall|i: int| 0 <= i < it.index() ==> json_of(#[trigger] values@[i]) == farms[i]@,
        {
            values.push(farm.into_value());
        }
        assert(json_seq(values@) =~= records_of(farms));
        object_value("farms".to_string(), array_value(values))
    }

    /// Unwraps a state document: the records it stores, or `None` where the
    /// value is no state document.
    pub fn from_document(doc: Value) -> (r: Option<SavedState>)
        ensures
            match farms_in(json_of(doc)) {
                Some(records) => r matches Some(state) && state@ == records,
                None => r is None,
            },
    {
        let list = match take_member(doc, "farms") {
            Some(list) => list,
            None => { return None; },
        };
        let items = match into_items(list) {
            Some(items) => items,
            None => { return None; },
        };
        let ghost all = json_seq(items@);
        let mut farms: Vec<Farm> = Vec::new();
        for item in it: items
            invariant
                it.seq() == items@,
                all == json_seq(items@),
                member_of(json_of(doc), farms_key()) == Some(Json::Array(all)),
                farms@.len() == it.index(),
                forall|i: int|
                    0 <= i < it.index() ==> (#[trigger] farms@[i])@ == json_of(items@[i]) && json_of(
                        items@[i],
                    ) is Object,
        {
            match Farm::new(item) {
                Some(farm) => farms.push(farm),
                None => {
                    assert(all[it.index() as int] == json_of(item));
                    return None;
                },
            }
        }
        assert(records_of(farms@) =~= all);
        Some(SavedState { farms })
    }

    /// The state as pretty-printed JSON text, or [`SaveError::Format`] where
    /// the printer fails.
    pub fn to_json(self) -> (r: Result<String, SaveError>)
        ensures
            match encoded(self@) {
                Some(text) => r matches Ok(s) && s@ == text,
                None => r == Err::<String, SaveError>(SaveError::Format),
            },
    {
        let doc = self.into_document();
        match pretty_text(&doc) {
            Ok(text) => Ok(text),
            Err(_) => Err(SaveError::Format),
        }
    }

    /// The state stored in a JSON text, or [`LoadError::Format`] where the text
    /// is not JSON or not a state document.
    pub fn from_json(text: &str) -> (r: Result<SavedState, LoadError>)
        ensures
            match decoded(text@) {
                Some(records) => r matches Ok(state) && state@ == records,
                None => r == Err::<SavedState, LoadError>(LoadError::Format),
            },
    {
        let doc = match parse_text(text) {
            Ok(doc) => doc,
            Err(_) => { return Err(LoadError::Format); },
        };
        match SavedState::from_document(doc) {
            Some(state) => Ok(state),
            None => Err(LoadError::Format),
        }
    }

    /// The state file of the debounced save, for the given working directory.
    pub fn path(cur_dir: &Location) -> (r: Location)
        ensures
            r@ == state_file_of(cur_dir@),
    {
        cur_dir.join(STATE_FILE)
    }

    /// Finishes a load of the state file. `contents` is what reading the file
    /// at [`SavedState::path`] gave: its text, or `None` where it could not be
    /// opened or read. A file that cannot be read is a [`LoadError::File`], one
    /// that holds no state document a [`LoadError::Format`].
    pub fn load(contents: Option<&str>) -> (r: Result<SavedState, LoadError>)
        ensures
            match restored(text_of(contents)) {
                Ok(records) => r matches Ok(state) && state@ == records,
                Err(error) => r == Err::<SavedState, LoadError>(error),
            },
    {
        match contents {
            Some(text) => SavedState::from_json(text),
            None => Err(LoadError::File),
        }
    }

    /// Begins a debounced save into the state file of the given working
    /// directory: the text is made, and the job that comes back says what to
    /// do with it. Once the text is written the job holds still for
    /// [`DEBOUNCE_SECONDS`], so that saves in quick succession are spaced out.
    /// Where the state cannot be printed, nothing is begun.
    pub fn save(self, cur_dir: &Location) -> (r: Result<SaveJob, SaveError>)
        ensures
            match encoded(self@) {
                Some(text) => r matches Ok(job) && job@ == fresh_job(
                    cur_dir@,
                    state_file_of(cur_dir@),
                    text,
                    DEBOUNCE_SECONDS,
                ),
                None => r == Err::<SaveJob, SaveError>(SaveError::Format),
            },
            r matches Ok(job) ==> job@.path.parent() == Some(job@.dir),
    {
        let text = match self.to_json() {
            Ok(text) => text,
            Err(error) => { return Err(error); },
        };
        proof {
            state_file_lies_in_cur_dir(cur_dir@);
        }
        Ok(SaveJob::new(cur_dir.clone(), SavedState::path(cur_dir), text, DEBOUNCE_SECONDS))
    }
}

/// A list of records is read back unchanged from the document that stores it.
pub proof fn document_round_trip(records: Seq<Json>)
    requires
        all_records(records),
    ensures
        farms_in(document_of(records)) == Some(records),
{
    let members = seq![(farms_key(), Json::Array(records))];
    assert(members[0].0 == farms_key());
}

/// Where the parser reads a text back as the document that was printed, the
/// records decoded from that text are the records that were encoded.
pub proof fn text_round_trip(records: Seq<Json>, text: Seq<char>)
    requires
        all_records(records),
        encoded(records) == Some(text),
        parsed_text(text) == Some(document_of(records)),
    ensures
        decoded(text) == Some(records),
{
    document_round_trip(records);
}

} // verus!
