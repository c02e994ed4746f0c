use early_warning::state::DEBOUNCE_SECONDS;
use early_warning::{Farm, LoadError, Location, SaveAction, SaveError, SavedState, Stage};
use serde_json::{Number, Value};

fn record(name: &str) -> Value {
    let mut members = serde_json::Map::new();
    members.insert("name".to_string(), Value::String(name.to_string()));
    Value::Object(members)
}

fn named(name: &str) -> Farm {
    Farm::new(record(name)).expect("an object is a record")
}

fn document(records: Vec<Value>) -> Value {
    let mut members = serde_json::Map::new();
    members.insert("farms".to_string(), Value::Array(records));
    Value::Object(members)
}

fn working_dir() -> Location {
    Location { anchor: "/".to_string(), segments: vec!["work".to_string()] }
}

#[test]
fn only_an_object_is_a_record() {
    assert!(Farm::new(record("North")).is_some());
    assert!(Farm::new(Value::Object(serde_json::Map::new())).is_some());
    assert!(Farm::new(Value::Null).is_none());
    assert!(Farm::new(Value::Bool(true)).is_none());
    assert!(Farm::new(Value::Number(Number::from(3u64))).is_none());
    assert!(Farm::new(Value::String("North".to_string())).is_none());
    assert!(Farm::new(Value::Array(vec![record("North")])).is_none());
}

#[test]
fn record_keeps_its_value() {
    let farm = named("North");
    assert_eq!(farm.as_value(), &record("North"));
    assert_eq!(farm.clone(), farm);
    assert_eq!(farm.clone().into_value(), record("North"));
    assert_ne!(named("North"), named("South"));
}

#[test]
fn default_state_has_no_records() {
    assert_eq!(SavedState::default(), SavedState { farms: Vec::new() });
}

#[test]
fn document_holds_the_records_under_farms() {
    let state = SavedState { farms: vec![named("North"), named("South")] };
    assert_eq!(
        state.into_document(),
        document(vec![record("North"), record("South")])
    );
    assert_eq!(SavedState::default().into_document(), document(Vec::new()));
}

#[test]
fn document_is_unwrapped_to_its_records() {
    let state = SavedState { farms: vec![named("North"), named("South")] };
    assert_eq!(
        SavedState::from_document(document(vec![record("North"), record("South")])),
        Some(state)
    );
    assert_eq!(
        SavedState::from_document(document(Vec::new())),
        Some(SavedState::default())
    );
}

#[test]
fn other_values_are_no_documents() {
    assert_eq!(SavedState::from_document(Value::Null), None);
    assert_eq!(SavedState::from_document(Value::Array(vec![record("North")])), None);
    assert_eq!(SavedState::from_document(record("North")), None);
    assert_eq!(
        SavedState::from_document(document(vec![record("North"), Value::Null])),
        None
    );
    let mut members = serde_json::Map::new();
    members.insert("farms".to_string(), record("North"));
    assert_eq!(SavedState::from_document(Value::Object(members)), None);
}

#[test]
fn document_round_trip_keeps_the_records() {
    let state = SavedState { farms: vec![named("North"), named("South"), named("North")] };
    assert_eq!(SavedState::from_document(state.clone().into_document()), Some(state));
}

#[test]
fn state_text_round_trip_keeps_the_records() {
    let state = SavedState { farms: vec![named("North"), named("South")] };
    let text = state.clone().to_json().expect("records can be printed");
    assert_eq!(SavedState::from_json(&text), Ok(state));
}

#[test]
fn state_text_is_pretty_printed() {
    let state = SavedState { farms: vec![named("North"), named("South")] };
    assert_eq!(
        state.to_json(),
        Ok("{\n  \"farms\": [\n    {\n      \"name\": \"North\"\n    },\n    {\n      \"name\": \"South\"\n    }\n  ]\n}"
            .to_string())
    );
}

#[test]
fn text_that_holds_no_state_is_a_format_error() {
    assert_eq!(SavedState::from_json("oops"), Err(LoadError::Format));
    assert_eq!(SavedState::from_json("{\"farms\": [3]}"), Err(LoadError::Format));
    assert_eq!(SavedState::from_json("{}"), Err(LoadError::Format));
}

#[test]
fn load_tells_a_missing_file_from_a_bad_one() {
    assert_eq!(SavedState::load(None), Err(LoadError::File));
    assert_eq!(SavedState::load(Some("oops")), Err(LoadError::Format));
    assert_eq!(SavedState::load(Some("[]")), Err(LoadError::Format));
    assert_eq!(
        SavedState::load(Some("{\"farms\": [{\"name\": \"North\"}]}")),
        Ok(SavedState { farms: vec![named("North")] })
    );
    assert_eq!(SavedState::load(Some("{\"farms\": []}")), Ok(SavedState::default()));
}

#[test]
fn debounced_save_writes_then_holds_still() {
    assert_eq!(DEBOUNCE_SECONDS, 2);
    let state = SavedState { farms: vec![named("North")] };
    let text = state.clone().to_json().expect("records can be printed");
    let mut job = state.save(&working_dir()).expect("records can be printed");
    assert_eq!(job.stage, Stage::EnsureDir);
    assert_eq!(job.action(), SaveAction::EnsureDir(&working_dir()));
    job.advance(true);
    assert_eq!(job.action(), SaveAction::Create(&SavedState::path(&working_dir())));
    job.advance(true);
    assert_eq!(job.action(), SaveAction::Write(&text));
    job.advance(true);
    assert!(!job.is_finished());
    assert_eq!(job.action(), SaveAction::Sleep(2));
    job.advance(true);
    assert!(job.is_finished());
    assert_eq!(job.action(), SaveAction::Finish(Ok(())));
    job.advance(false);
    assert_eq!(job.action(), SaveAction::Finish(Ok(())));
}

#[test]
fn debounced_save_does_not_hold_still_after_a_failure() {
    let mut job = SavedState::default().save(&working_dir()).expect("no records can be printed");
    job.advance(false);
    assert_eq!(job.action(), SaveAction::Finish(Err(SaveError::File)));

    let mut job = SavedState::default().save(&working_dir()).expect("no records can be printed");
    job.advance(true);
    job.advance(false);
    assert_eq!(job.action(), SaveAction::Finish(Err(SaveError::File)));

    let mut job = SavedState::default().save(&working_dir()).expect("no records can be printed");
    job.advance(true);
    job.advance(true);
    job.advance(false);
    assert_eq!(job.action(), SaveAction::Finish(Err(SaveError::Write)));
}

#[test]
fn every_save_is_finished_after_four_actions() {
    for outcomes in [
        [true, true, true, true],
        [false, true, true, true],
        [true, false, true, false],
        [true, true, false, false],
        [false, false, false, false],
    ] {
        let mut job = SavedState::default().save(&working_dir()).expect("no records can be printed");
        for ok in outcomes {
            job.advance(ok);
        }
        assert!(job.is_finished());
    }
}
