use early_warning::location::{CACHE_DIR, CACHE_FILE, STATE_FILE};
use early_warning::{cache_dir, path_to_cache, Location, SavedState};

fn location(anchor: &str, segments: &[&str]) -> Location {
    Location {
        anchor: anchor.to_string(),
        segments: segments.iter().map(|s| s.to_string()).collect(),
    }
}

#[test]
fn file_names_are_fixed() {
    assert_eq!(CACHE_DIR, ".cache");
    assert_eq!(CACHE_FILE, "early_warning.json");
    assert_eq!(STATE_FILE, "rgo_early_warning.json");
}

#[test]
fn parent_drops_the_last_segment() {
    assert_eq!(
        location("/", &["home", "ann"]).parent(),
        Some(location("/", &["home"]))
    );
    assert_eq!(location("/", &["home"]).parent(), Some(location("/", &[])));
    assert_eq!(location("", &["here"]).parent(), Some(location("", &[])));
    assert_eq!(
        location("C:\\", &["Users", "ann"]).parent(),
        Some(location("C:\\", &["Users"]))
    );
}

#[test]
fn parent_of_an_anchor_is_none() {
    assert_eq!(location("/", &[]).parent(), None);
    assert_eq!(location("", &[]).parent(), None);
    assert_eq!(location("C:\\", &[]).parent(), None);
}

#[test]
fn join_adds_a_segment() {
    assert_eq!(
        location("/", &["home"]).join("ann"),
        location("/", &["home", "ann"])
    );
    assert_eq!(location("", &[]).join(".cache"), location("", &[".cache"]));
}

#[test]
fn clone_is_equal() {
    let here = location("/", &["home", "ann"]);
    assert_eq!(here.clone(), here);
}

#[test]
fn cache_lies_beside_the_working_directory() {
    let cur = location("/", &["home", "ann", "warning"]);
    assert_eq!(cache_dir(&cur), location("/", &["home", "ann", ".cache"]));
    assert_eq!(
        path_to_cache(&cur),
        location("/", &["home", "ann", ".cache", "early_warning.json"])
    );
}

#[test]
fn cache_lies_below_a_working_directory_without_parent() {
    assert_eq!(
        path_to_cache(&location("/", &[])),
        location("/", &[".cache", "early_warning.json"])
    );
    assert_eq!(
        path_to_cache(&location("", &[])),
        location("", &[".cache", "early_warning.json"])
    );
}

#[test]
fn cache_of_a_directory_just_below_the_root() {
    assert_eq!(
        path_to_cache(&location("/", &["srv"])),
        location("/", &[".cache", "early_warning.json"])
    );
}

#[test]
fn cache_file_lies_in_the_cache_directory() {
    for cur in [
        location("/", &["home", "ann", "warning"]),
        location("/", &["srv"]),
        location("/", &[]),
        location("", &[]),
    ] {
        assert_eq!(path_to_cache(&cur).parent(), Some(cache_dir(&cur)));
    }
}

#[test]
fn state_file_lies_in_the_working_directory() {
    let cur = location("/", &["home", "ann", "warning"]);
    assert_eq!(
        SavedState::path(&cur),
        location("/", &["home", "ann", "warning", "rgo_early_warning.json"])
    );
    assert_eq!(SavedState::path(&cur).parent(), Some(cur));
    assert_eq!(
        SavedState::path(&location("", &[])),
        location("", &["rgo_early_warning.json"])
    );
}
