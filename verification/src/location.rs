//! Where the state is kept.
//!
//! A location is a path taken apart: the anchor it starts from (a root such as
//! `/`, a drive prefix with its root, or nothing for a relative path) and the
//! segments below the anchor. Taken apart like this, the parent of a path and
//! a path extended by a name are plain operations on a sequence.

use vstd::prelude::*;

verus! {

/// The directory that holds the cache file, beside the working directory.
pub const CACHE_DIR: &'static str = ".cache";

/// The name of the cache file.
pub const CACHE_FILE: &'static str = "early_warning.json";

/// The name of the state file of the debounced save.
pub const STATE_FILE: &'static str = "rgo_early_warning.json";

/// A path: an anchor and the segments below it.
#[derive(Debug, PartialEq, Eq)]
pub struct Location {
    /// Where the path starts: a root, a drive prefix with its root, or the
    /// empty string for a relative path.
    pub anchor: String,
    /// The names below the anchor, outermost first. Each is one component of
    /// the path; this type does not look into them.
    pub segments: Vec<String>,
}

/// What a [`Location`] denotes.
pub struct Place {
    pub anchor: Seq<char>,
    pub segments: Seq<Seq<char>>,
}

/// The text of each string of a sequence.
pub open spec fn texts(strings: Seq<String>) -> Seq<Seq<char>> {
    strings.map_values(|s: String| s@)
}

impl View for Location {
    type V = Place;

    open spec fn view(&self) -> Place {
        Place { anchor: self.anchor@, segments: texts(self.segments@) }
    }
}

impl Place {
    /// The place without its last segment. An anchor alone, or the empty
    /// relative path, has no parent.
    pub open spec fn parent(self) -> Option<Place> {
        if self.segments.len() == 0 {
            None
        } else {
            Some(Place { anchor: self.anchor, segments: self.segments.drop_last() })
        }
    }

    /// The place one segment further down.
    pub open spec fn join(self, name: Seq<char>) -> Place {
        Place { anchor: self.anchor, segments: self.segments.push(name) }
    }

    /// The parent, or the place itself where it has none.
    pub open spec fn parent_or_self(self) -> Place {
        match self.parent() {
            Some(parent) => parent,
            None => self,
        }
    }
}

/// The cache directory for a working directory: `.cache` beside it, or below
/// it where the working directory has no parent.
pub open spec fn cache_dir_of(cur_dir: Place) -> Place {
    cur_dir.parent_or_self().join(CACHE_DIR@)
}

/// The cache file for a working directory: `early_warning.json` in the cache
/// directory.
pub open spec fn cache_file_of(cur_dir: Place) -> Place {
    cache_dir_of(cur_dir).join(CACHE_FILE@)
}

/// The state file of the debounced save: `rgo_early_warning.json` in the
/// working directory itself.
pub open spec fn state_file_of(cur_dir: Place) -> Place {
    cur_dir.join(STATE_FILE@)
}

/// Copies the first `count` segments.
fn leading(segments: &Vec<String>, count: usize) -> (r: Vec<String>)
    requires
        count <= segments@.len(),
    ensures
        texts(r@) == texts(segments@).take(count as int),
{
    let mut copy: Vec<String> = Vec::new();
    let mut i: usize = 0;
    while i < count
        invariant
            i <= count <= segments@.len(),
            copy@.len() == i,
            forall|k: int| 0 <= k < i ==> copy@[k]@ == segments@[k]@,
        decreases count - i,
    {
        copy.push(segments[i].clone());
        i += 1;
    }
    assert(texts(copy@) =~= texts(segments@).take(count as int));
    copy
}

impl Clone for Location {
    fn clone(&self) -> (r: Location)
        ensures
            r@ == self@,
    {
        let segments = leading(&self.segments, self.segments.len());
        assert(texts(self.segments@).take(self.segments@.len() as int) =~= texts(self.segments@));
        Location { anchor: self.anchor.clone(), segments }
    }
}

impl Location {
    /// The location without its last segment, or `None` where there is none to
    /// drop.
    pub fn parent(&self) -> (r: Option<Location>)
        ensures
            match self@.parent() {
                Some(parent) => r matches Some(p) && p@ == parent,
                None => r is None,
            },
    {
        let n: usize = self.segments.len();
        if n == 0 {
            return None;
        }
        let segments = leading(&self.segments, n - 1);
        assert(texts(self.segments@).take(n - 1) =~= texts(self.segments@).drop_last());
        Some(Location { anchor: self.anchor.clone(), segments })
    }

    /// The location one segment further down.
    pub fn join(&self, name: &str) -> (r: Location)
        ensures
            r@ == self@.join(name@),
    {
        let mut segments = leading(&self.segments, self.segments.len());
        let ghost copied = segments@;
        assert(texts(self.segments@).take(self.segments@.len() as int) =~= texts(self.segments@));
        segments.push(name.to_string());
        assert(texts(segments@) =~= texts(copied).push(name@));
        Location { anchor: self.anchor.clone(), segments }
    }
}

/// The directory that holds the cache file, for the given working directory.
pub fn cache_dir(cur_dir: &Location) -> (r: Location)
    ensures
        r@ == cache_dir_of(cur_dir@),
{
    match cur_dir.parent() {
        Some(parent) => parent.join(CACHE_DIR),
        None => cur_dir.join(CACHE_DIR),
    }
}

/// The cache file, for the given working directory.
pub fn path_to_cache(cur_dir: &Location) -> (r: Location)
    ensures
        r@ == cache_file_of(cur_dir@),
{
    cache_dir(cur_dir).join(CACHE_FILE)
}

/// The parent of the cache file is the cache directory, whatever the working
/// directory: a caller that creates the cache directory has created the
/// directory the file is opened in.
pub proof fn cache_file_lies_in_cache_dir(cur_dir: Place)
    ensures
        cache_file_of(cur_dir).parent() == Some(cache_dir_of(cur_dir)),
{
    let dir = cache_dir_of(cur_dir);
    assert(dir.segments.push(CACHE_FILE@).drop_last() =~= dir.segments);
}

/// The state file of the debounced save lies in the working directory.
pub proof fn state_file_lies_in_cur_dir(cur_dir: Place)
    ensures
        state_file_of(cur_dir).parent() == Some(cur_dir),
{
    assert(cur_dir.segments.push(STATE_FILE@).drop_last() =~= cur_dir.segments);
}

} // verus!
