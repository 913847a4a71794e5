use warnings::{
    GuildId, LoadEvent, LoadStep, SaveEvent, SaveStep, StoreError, User, UserId, Warnings,
};

fn sample() -> Warnings {
    let mut store = Warnings::new();
    store.add_warning(&GuildId(1), User::new(UserId(1), "u1".to_string()), "rude".to_string());
    store
}

/// Runs a load to its end against a file system and a decoder that answer as given.
fn run_load(
    path: &str,
    is_file: bool,
    text: Option<&str>,
    decoded: Result<Warnings, String>,
) -> (Result<Warnings, StoreError>, Vec<&'static str>) {
    let mut decoded = Some(decoded);
    let mut done = Vec::new();
    let mut event = LoadEvent::Begin;
    loop {
        event = match Warnings::load(path, event) {
            LoadStep::Probe => {
                done.push("probe");
                LoadEvent::Probed { is_file }
            }
            LoadStep::Read => {
                done.push("read");
                LoadEvent::Read { text: text.map(|t| t.to_string()) }
            }
            LoadStep::Decode { text: given } => {
                done.push("decode");
                assert_eq!(Some(given.as_str()), text);
                LoadEvent::Decoded { store: decoded.take().unwrap() }
            }
            LoadStep::Done { outcome } => return (outcome, done),
        };
    }
}

/// Runs a save to its end against a file system that answers as given.
fn run_save(
    parent_exists: Option<bool>,
    create_failure: Option<&str>,
    write_failure: Option<&str>,
) -> (Result<(), StoreError>, Vec<&'static str>) {
    let mut done = Vec::new();
    let mut event = SaveEvent::Begin;
    loop {
        event = match Warnings::save(event) {
            SaveStep::FindParent => {
                done.push("find");
                SaveEvent::Parent { exists: parent_exists }
            }
            SaveStep::CreateParent => {
                done.push("create");
                SaveEvent::ParentCreated { failure: create_failure.map(|c| c.to_string()) }
            }
            SaveStep::Write => {
                done.push("write");
                SaveEvent::Written { failure: write_failure.map(|c| c.to_string()) }
            }
            SaveStep::Done { outcome } => return (outcome, done),
        };
    }
}

#[test]
fn load_of_a_missing_file_is_file_not_found() {
    let (outcome, done) = run_load("data/warnings.json", false, Some("{}"), Ok(sample()));
    assert_eq!(outcome, Err(StoreError::FileNotFound { path: "data/warnings.json".to_string() }));
    // nothing is read once the probe has failed
    assert_eq!(done, vec!["probe"]);
}

#[test]
fn load_of_an_unreadable_file_is_read_failure() {
    let (outcome, done) = run_load("w.json", true, None, Ok(sample()));
    assert_eq!(outcome, Err(StoreError::ReadFailure { path: "w.json".to_string() }));
    assert_eq!(done, vec!["probe", "read"]);
}

#[test]
fn load_of_other_text_is_parse_failure() {
    let cause = "expected value at line 1 column 1".to_string();
    let (outcome, done) = run_load("w.json", true, Some("not a store"), Err(cause.clone()));
    assert_eq!(outcome, Err(StoreError::ParseFailure { cause }));
    assert_eq!(done, vec!["probe", "read", "decode"]);
}

#[test]
fn load_of_a_store_gives_that_store() {
    let (outcome, done) = run_load("w.json", true, Some("{\"guilds\":[]}"), Ok(sample()));
    assert_eq!(outcome, Ok(sample()));
    assert_eq!(done, vec!["probe", "read", "decode"]);
}

#[test]
fn load_steps_one_by_one() {
    assert!(matches!(Warnings::load("p", LoadEvent::Begin), LoadStep::Probe));
    assert!(matches!(Warnings::load("p", LoadEvent::Probed { is_file: true }), LoadStep::Read));
    match Warnings::load("p", LoadEvent::Read { text: Some("abc".to_string()) }) {
        LoadStep::Decode { text } => assert_eq!(text, "abc"),
        other => panic!("unexpected step {:?}", other),
    }
    match Warnings::load("p", LoadEvent::Read { text: Some(String::new()) }) {
        LoadStep::Decode { text } => assert_eq!(text, ""),
        other => panic!("unexpected step {:?}", other),
    }
    match Warnings::load("p", LoadEvent::Decoded { store: Ok(Warnings::new()) }) {
        LoadStep::Done { outcome } => assert_eq!(outcome, Ok(Warnings::new())),
        other => panic!("unexpected step {:?}", other),
    }
    match Warnings::load("", LoadEvent::Probed { is_file: false }) {
        LoadStep::Done { outcome } => {
            assert_eq!(outcome, Err(StoreError::FileNotFound { path: String::new() }))
        }
        other => panic!("unexpected step {:?}", other),
    }
}

#[test]
fn save_into_an_existing_directory_writes_at_once() {
    let (outcome, done) = run_save(Some(true), Some("unused"), None);
    assert_eq!(outcome, Ok(()));
    assert_eq!(done, vec!["find", "write"]);
}

#[test]
fn save_without_a_parent_writes_at_once() {
    let (outcome, done) = run_save(None, Some("unused"), None);
    assert_eq!(outcome, Ok(()));
    assert_eq!(done, vec!["find", "write"]);
}

#[test]
fn save_makes_a_missing_directory_first() {
    let (outcome, done) = run_save(Some(false), None, None);
    assert_eq!(outcome, Ok(()));
    assert_eq!(done, vec!["find", "create", "write"]);
}

#[test]
fn save_fails_when_the_directory_cannot_be_made() {
    let (outcome, done) = run_save(Some(false), Some("Permission denied (os error 13)"), None);
    assert_eq!(
        outcome,
        Err(StoreError::WriteFailure { cause: "Permission denied (os error 13)".to_string() })
    );
    // nothing is written after that
    assert_eq!(done, vec!["find", "create"]);
}

#[test]
fn save_fails_when_the_file_cannot_be_written() {
    let (outcome, done) = run_save(Some(true), None, Some("No space left on device"));
    assert_eq!(
        outcome,
        Err(StoreError::WriteFailure { cause: "No space left on device".to_string() })
    );
    assert_eq!(done, vec!["find", "write"]);
    let (outcome, done) = run_save(Some(false), None, Some("disk full"));
    assert_eq!(outcome, Err(StoreError::WriteFailure { cause: "disk full".to_string() }));
    assert_eq!(done, vec!["find", "create", "write"]);
}

#[test]
fn save_steps_one_by_one() {
    assert_eq!(Warnings::save(SaveEvent::Begin), SaveStep::FindParent);
    assert_eq!(Warnings::save(SaveEvent::Parent { exists: Some(false) }), SaveStep::CreateParent);
    assert_eq!(Warnings::save(SaveEvent::Parent { exists: Some(true) }), SaveStep::Write);
    assert_eq!(Warnings::save(SaveEvent::Parent { exists: None }), SaveStep::Write);
    assert_eq!(Warnings::save(SaveEvent::ParentCreated { failure: None }), SaveStep::Write);
    assert_eq!(
        Warnings::save(SaveEvent::Written { failure: None }),
        SaveStep::Done { outcome: Ok(()) }
    );
}

#[test]
fn error_messages() {
    assert_eq!(
        StoreError::FileNotFound { path: "data/w.json".to_string() }.message(),
        "Error: No file 'data/w.json' found"
    );
    assert_eq!(
        StoreError::ReadFailure { path: "data/w.json".to_string() }.message(),
        "Error: failed reading from file: data/w.json"
    );
    assert_eq!(
        StoreError::ParseFailure { cause: "EOF while parsing a value".to_string() }.message(),
        "Error: EOF while parsing a value"
    );
    assert_eq!(
        StoreError::WriteFailure { cause: "Permission denied (os error 13)".to_string() }
            .message(),
        "Permission denied (os error 13)"
    );
    assert_eq!(StoreError::FileNotFound { path: String::new() }.message(), "Error: No file '' found");
}
