//! The commands the user interface calls.
//!
//! Each command is the part of the work that needs no disk. `save` ends in a
//! [`SaveJob`] for the caller to carry out; `load` begins where the caller has
//! made sure of the cache directory and read the cache file.

use crate::farm::{all_records, records_of, Farm};
use crate::job::{fresh_job, SaveJob};
use crate::json::{parsed_text, Json};
use crate::location::{
    cache_dir, cache_dir_of, cache_file_lies_in_cache_dir, cache_file_of, path_to_cache, Location,
};
use crate::state::{
    decoded, document_of, encoded, text_of, text_round_trip, SaveError, SavedState,
};
use vstd::prelude::*;

verus! {

/// The records that a read of the cache file amounts to: `contents` is the
/// file's text, or `None` where the file could not be opened or read. A file
/// that is missing, unreadable, not JSON or not a state document amounts to no
/// records.
pub open spec fn loaded(contents: Option<Seq<char>>) -> Seq<Json> {
    match contents {
        Some(text) => match decoded(text) {
            Some(records) => records,
            None => Seq::empty(),
        },
        None => Seq::empty(),
    }
}

/// A greeting for `name`.
pub fn greet(name: &str) -> (r: String)
    ensures
        r@ == "Hello, "@ + name@ + "! You've been greeted from Rust!"@,
{
    String::from_str("Hello, ").concat(name).concat("! You've been greeted from Rust!")
}

/// Begins a save of `farms` into the cache file for the given working
/// directory. The job that comes back makes sure of the cache directory,
/// empties the file and writes the whole list as one pretty-printed document;
/// nothing of what the file held before is kept. Where the list cannot be
/// printed, nothing is begun.
pub fn save(farms: Vec<Farm>, cur_dir: &Location) -> (r: Result<SaveJob, SaveError>)
    ensures
        match encoded(records_of(farms@)) {
            Some(text) => r matches Ok(job) && job@ == fresh_job(
                cache_dir_of(cur_dir@),
                cache_file_of(cur_dir@),
                text,
                0,
            ),
            None => r == Err::<SaveJob, SaveError>(SaveError::Format),
        },
        r matches Ok(job) ==> job@.path.parent() == Some(job@.dir),
{
    let state = SavedState { farms };
    let text = match state.to_json() {
        Ok(text) => text,
        Err(error) => { return Err(error); },
    };
    proof {
        cache_file_lies_in_cache_dir(cur_dir@);
    }
    Ok(SaveJob::new(cache_dir(cur_dir), path_to_cache(cur_dir), text, 0))
}

/// Finishes a load. `contents` is what reading the cache file gave: its text,
/// or `None` where it could not be opened or read. The result is the stored
/// list as a whole, or no records at all; a load never fails.
pub fn load(contents: Option<&str>) -> (farms: Vec<Farm>)
    ensures
        records_of(farms@) == loaded(text_of(contents)),
        contents is None ==> farms@.len() == 0,
        contents matches Some(text) && decoded(text@) is None ==> farms@.len() == 0,
{
    let state = match contents {
        Some(text) => match SavedState::from_json(text) {
            Ok(state) => state,
            Err(_) => SavedState::default(),
        },
        None => SavedState::default(),
    };
    state.farms
}

/// What a save writes is read back by a load as the saved records, provided
/// the parser reads the written text back as the document that was printed.
pub proof fn load_after_save(records: Seq<Json>, text: Seq<char>)
    requires
        all_records(records),
        encoded(records) == Some(text),
        parsed_text(text) == Some(document_of(records)),
    ensures
        loaded(Some(text)) == records,
{
    text_round_trip(records, text);
}

} // verus!
