//! Loading and saving the store. The file system and the text format are the
//! caller's; what is decided from their answers is decided here. The caller
//! reports what it found out last and is told what to do next, until it is
//! told the outcome.

use vstd::prelude::*;
use vstd::string::*;

use crate::record::{GuildView, Warnings};

verus! {

/// Why the store could not be loaded or saved.
#[derive(Debug, PartialEq, Eq)]
pub enum StoreError {
    /// The path names no existing regular file.
    FileNotFound { path: String },
    /// The file is there and could not be read.
    ReadFailure { path: String },
    /// The file's text is not that of a store. `cause` is what the decoder said.
    ParseFailure { cause: String },
    /// A directory could not be made or the file could not be written.
    /// `cause` is what the system said.
    WriteFailure { cause: String },
}

/// The mathematical value of a [`StoreError`].
#[verifier::ext_equal]
pub enum StoreErrorView {
    FileNotFound { path: Seq<char> },
    ReadFailure { path: Seq<char> },
    ParseFailure { cause: Seq<char> },
    WriteFailure { cause: Seq<char> },
}

impl View for StoreError {
    type V = StoreErrorView;

    open spec fn view(&self) -> StoreErrorView {
        match self {
            StoreError::FileNotFound { path } => StoreErrorView::FileNotFound { path: path@ },
            StoreError::ReadFailure { path } => StoreErrorView::ReadFailure { path: path@ },
            StoreError::ParseFailure { cause } => StoreErrorView::ParseFailure { cause: cause@ },
            StoreError::WriteFailure { cause } => StoreErrorView::WriteFailure { cause: cause@ },
        }
    }
}

/// The text that tells a person of `error`.
pub open spec fn error_message(error: StoreErrorView) -> Seq<char> {
    match error {
        StoreErrorView::FileNotFound { path } => "Error: No file '"@ + path + "' found"@,
        StoreErrorView::ReadFailure { path } => "Error: failed reading from file: "@ + path,
        StoreErrorView::ParseFailure { cause } => "Error: "@ + cause,
        StoreErrorView::WriteFailure { cause } => cause,
    }
}

impl StoreError {
    /// The text that tells a person of this error.
    pub fn message(&self) -> (text: String)
        ensures
            text@ == error_message(self@),
    {
        let mut text = String::new();
        match self {
            StoreError::FileNotFound { path } => {
                text.append("Error: No file '");
                text.append(path.as_str());
                text.append("' found");
            },
            StoreError::ReadFailure { path } => {
                text.append("Error: failed reading from file: ");
                text.append(path.as_str());
            },
            StoreError::ParseFailure { cause } => {
                text.append("Error: ");
                text.append(cause.as_str());
            },
            StoreError::WriteFailure { cause } => {
                text.append(cause.as_str());
            },
        }
        assert(text@ =~= error_message(self@));
        text
    }
}

/// What the caller of a load has found out last.
#[derive(Debug)]
pub enum LoadEvent {
    /// Nothing yet: the load begins.
    Begin,
    /// Whether the path names an existing regular file.
    Probed { is_file: bool },
    /// The text of the file, or `None` where it could not be read.
    Read { text: Option<String> },
    /// The store that the text stands for, or what the decoder said of a
    /// text that stands for none.
    Decoded { store: Result<Warnings, String> },
}

/// What the caller of a load is to do next.
#[derive(Debug)]
pub enum LoadStep {
    /// Find out whether the path names an existing regular file.
    Probe,
    /// Read the whole file as text.
    Read,
    /// Decode `text`.
    Decode { text: String },
    /// Stop: the load has ended with `outcome`.
    Done { outcome: Result<Warnings, StoreError> },
}

/// The mathematical value of a [`LoadEvent`].
#[verifier::ext_equal]
pub enum LoadEventView {
    Begin,
    Probed { is_file: bool },
    Read { text: Option<Seq<char>> },
    Decoded { store: Result<Seq<GuildView>, Seq<char>> },
}

/// The mathematical value of a [`LoadStep`].
#[verifier::ext_equal]
pub enum LoadStepView {
    Probe,
    Read,
    Decode { text: Seq<char> },
    Done { outcome: Result<Seq<GuildView>, StoreErrorView> },
}

impl View for LoadEvent {
    type V = LoadEventView;

    open spec fn view(&self) -> LoadEventView {
        match self {
            LoadEvent::Begin => LoadEventView::Begin,
            LoadEvent::Probed { is_file } => LoadEventView::Probed { is_file: *is_file },
            LoadEvent::Read { text: Some(text) } => LoadEventView::Read { text: Some(text@) },
            LoadEvent::Read { text: None } => LoadEventView::Read { text: None },
            LoadEvent::Decoded { store: Ok(store) } => LoadEventView::Decoded { store: Ok(store@) },
            LoadEvent::Decoded { store: Err(cause) } => LoadEventView::Decoded {
                store: Err(cause@),
            },
        }
    }
}

impl View for LoadStep {
    type V = LoadStepView;

    open spec fn view(&self) -> LoadStepView {
        match self {
            LoadStep::Probe => LoadStepView::Probe,
            LoadStep::Read => LoadStepView::Read,
            LoadStep::Decode { text } => LoadStepView::Decode { text: text@ },
            LoadStep::Done { outcome: Ok(store) } => LoadStepView::Done { outcome: Ok(store@) },
            LoadStep::Done { outcome: Err(error) } => LoadStepView::Done { outcome: Err(error@) },
        }
    }
}

/// The step that follows `event` in a load from `path`.
///
/// The load begins by probing the path. A path that names no regular file
/// ends it with `FileNotFound`, before anything is read. A file that cannot
/// be read ends it with `ReadFailure`. A text that was read is decoded; one
/// that stands for no store ends the load with `ParseFailure` and the
/// decoder's message, and never with an empty store in its place.
pub open spec fn load_step(path: Seq<char>, event: LoadEventView) -> LoadStepView {
    match event {
        LoadEventView::Begin => LoadStepView::Probe,
        LoadEventView::Probed { is_file } => if is_file {
            LoadStepView::Read
        } else {
            LoadStepView::Done { outcome: Err(StoreErrorView::FileNotFound { path }) }
        },
        LoadEventView::Read { text: Some(text) } => LoadStepView::Decode { text },
        LoadEventView::Read { text: None } => LoadStepView::Done {
            outcome: Err(StoreErrorView::ReadFailure { path }),
        },
        LoadEventView::Decoded { store: Ok(store) } => LoadStepView::Done { outcome: Ok(store) },
        LoadEventView::Decoded { store: Err(cause) } => LoadStepView::Done {
            outcome: Err(StoreErrorView::ParseFailure { cause }),
        },
    }
}

/// What the caller of a save has found out last.
#[derive(Debug)]
pub enum SaveEvent {
    /// Nothing yet: the save begins.
    Begin,
    /// Whether the directory that is to hold the file exists; `None` where
    /// the path names no such directory.
    Parent { exists: Option<bool> },
    /// The directory and its missing ancestors were made, or what the system
    /// said when they could not be.
    ParentCreated { failure: Option<String> },
    /// The text of the store was written over the file, or what the system
    /// said when it could not be.
    Written { failure: Option<String> },
}

/// What the caller of a save is to do next.
#[derive(Debug, PartialEq, Eq)]
pub enum SaveStep {
    /// Find the directory that is to hold the file, and whether it exists.
    FindParent,
    /// Make that directory and every missing ancestor of it.
    CreateParent,
    /// Encode the whole store and write the text over the file.
    Write,
    /// Stop: the save has ended with `outcome`.
    Done { outcome: Result<(), StoreError> },
}

/// The mathematical value of a [`SaveEvent`].
#[verifier::ext_equal]
pub enum SaveEventView {
    Begin,
    Parent { exists: Option<bool> },
    ParentCreated { failure: Option<Seq<char>> },
    Written { failure: Option<Seq<char>> },
}

/// The mathematical value of a [`SaveStep`].
#[verifier::ext_equal]
pub enum SaveStepView {
    FindParent,
    CreateParent,
    Write,
    Done { outcome: Result<(), StoreErrorView> },
}

impl View for SaveEvent {
    type V = SaveEventView;

    open spec fn view(&self) -> SaveEventView {
        match self {
            SaveEvent::Begin => SaveEventView::Begin,
            SaveEvent::Parent { exists } => SaveEventView::Parent { exists: *exists },
            SaveEvent::ParentCreated { failure: Some(cause) } => SaveEventView::ParentCreated {
                failure: Some(cause@),
            },
            SaveEvent::ParentCreated { failure: None } => SaveEventView::ParentCreated {
                failure: None,
            },
            SaveEvent::Written { failure: Some(cause) } => SaveEventView::Written {
                failure: Some(cause@),
            },
            SaveEvent::Written { failure: None } => SaveEventView::Written { failure: None },
        }
    }
}

impl View for SaveStep {
    type V = SaveStepView;

    open spec fn view(&self) -> SaveStepView {
        match self {
            SaveStep::FindParent => SaveStepView::FindParent,
            SaveStep::CreateParent => SaveStepView::CreateParent,
            SaveStep::Write => SaveStepView::Write,
            SaveStep::Done { outcome: Ok(_) } => SaveStepView::Done { outcome: Ok(()) },
            SaveStep::Done { outcome: Err(error) } => SaveStepView::Done { outcome: Err(error@) },
        }
    }
}

/// The step that follows `event` in a save.
///
/// The save begins by looking for the directory that is to hold the file.
/// Where there is one and it does not exist, it is made first. Then the
/// store is written. What the system says when either fails ends the save
/// with `WriteFailure`.
pub open spec fn save_step(event: SaveEventView) -> SaveStepView {
    match event {
        SaveEventView::Begin => SaveStepView::FindParent,
        SaveEventView::Parent { exists: Some(false) } => SaveStepView::CreateParent,
        SaveEventView::Parent { exists: _ } => SaveStepView::Write,
        SaveEventView::ParentCreated { failure: None } => SaveStepView::Write,
        SaveEventView::ParentCreated { failure: Some(cause) } => SaveStepView::Done {
            outcome: Err(StoreErrorView::WriteFailure { cause }),
        },
        SaveEventView::Written { failure: None } => SaveStepView::Done { outcome: Ok(()) },
        SaveEventView::Written { failure: Some(cause) } => SaveStepView::Done {
            outcome: Err(StoreErrorView::WriteFailure { cause }),
        },
    }
}

impl Warnings {
    /// One step of loading the store from the file at `path`: given what the
    /// caller found out last, what it is to do next.
    pub fn load(path: &str, event: LoadEvent) -> (step: LoadStep)
        ensures
            step@ == load_step(path@, event@),
    {
        match event {
            LoadEvent::Begin => LoadStep::Probe,
            LoadEvent::Probed { is_file } => {
                if is_file {
                    LoadStep::Read
                } else {
                    LoadStep::Done {
                        outcome: Err(StoreError::FileNotFound { path: String::from_str(path) }),
                    }
                }
            },
            LoadEvent::Read { text } => match text {
                Some(text) => LoadStep::Decode { text },
                None => LoadStep::Done {
                    outcome: Err(StoreError::ReadFailure { path: String::from_str(path) }),
                },
            },
            LoadEvent::Decoded { store } => match store {
                Ok(store) => LoadStep::Done { outcome: Ok(store) },
                Err(cause) => LoadStep::Done { outcome: Err(StoreError::ParseFailure { cause }) },
            },
        }
    }

    /// One step of saving the store: given what the caller found out last,
    /// what it is to do next.
    pub fn save(event: SaveEvent) -> (step: SaveStep)
        ensures
            step@ == save_step(event@),
    {
        match event {
            SaveEvent::Begin => SaveStep::FindParent,
            SaveEvent::Parent { exists } => match exists {
                Some(false) => SaveStep::CreateParent,
                _ => SaveStep::Write,
            },
            SaveEvent::ParentCreated { failure } => match failure {
                None => SaveStep::Write,
                Some(cause) => SaveStep::Done {
                    outcome: Err(StoreError::WriteFailure { cause }),
                },
            },
            SaveEvent::Written { failure } => match failure {
                None => SaveStep::Done { outcome: Ok(()) },
                Some(cause) => SaveStep::Done {
                    outcome: Err(StoreError::WriteFailure { cause }),
                },
            },
        }
    }
}

/// What the file system and the decoder answer in one load.
pub struct LoadAnswers {
    /// Whether the path names an existing regular file.
    pub is_file: bool,
    /// The text that reading the file gives, or `None` where it fails.
    pub text: Option<Seq<char>>,
    /// What decoding that text gives.
    pub decoded: Result<Seq<GuildView>, Seq<char>>,
}

/// The outcome of a load whose caller goes on from `event`, doing each step
/// it is told and reporting what `answers` holds, for at most `steps` steps.
/// `None` where the load has not ended by then.
pub open spec fn load_outcome(
    path: Seq<char>,
    answers: LoadAnswers,
    event: LoadEventView,
    steps: nat,
) -> Option<Result<Seq<GuildView>, StoreErrorView>>
    decreases steps,
{
    match load_step(path, event) {
        LoadStepView::Done { outcome } => Some(outcome),
        step => if steps == 0 {
            None
        } else {
            let found = match step {
                LoadStepView::Probe => LoadEventView::Probed { is_file: answers.is_file },
                LoadStepView::Read => LoadEventView::Read { text: answers.text },
                _ => LoadEventView::Decoded { store: answers.decoded },
            };
            load_outcome(path, answers, found, (steps - 1) as nat)
        },
    }
}

/// A load ends after at most three steps, and with what its description
/// says: `FileNotFound` for a path that names no regular file, whatever
/// else is there; `ReadFailure` for a file that cannot be read;
/// `ParseFailure` with the decoder's message for a text that stands for no
/// store; and otherwise the very store that the decoder gave.
pub proof fn law_load_outcome(path: Seq<char>, answers: LoadAnswers)
    ensures
        load_outcome(path, answers, LoadEventView::Begin, 3) == Some(
            if !answers.is_file {
                Err(StoreErrorView::FileNotFound { path })
            } else {
                match answers.text {
                    None => Err(StoreErrorView::ReadFailure { path }),
                    Some(text) => match answers.decoded {
                        Err(cause) => Err(StoreErrorView::ParseFailure { cause }),
                        Ok(store) => Ok(store),
                    },
                }
            },
        ),
{
    reveal_with_fuel(load_outcome, 4);
}

/// What the file system answers in one save.
pub struct SaveAnswers {
    /// Whether the directory that is to hold the file exists; `None` where
    /// the path names no such directory.
    pub parent_exists: Option<bool>,
    /// What the system says when the directory cannot be made; `None` where
    /// it can.
    pub create_failure: Option<Seq<char>>,
    /// What the system says when the file cannot be written; `None` where
    /// it can.
    pub write_failure: Option<Seq<char>>,
}

/// The outcome of a save whose caller goes on from `event`, doing each step
/// it is told and reporting what `answers` holds, for at most `steps` steps.
/// `None` where the save has not ended by then.
pub open spec fn save_outcome(answers: SaveAnswers, event: SaveEventView, steps: nat) -> Option<
    Result<(), StoreErrorView>,
>
    decreases steps,
{
    match save_step(event) {
        SaveStepView::Done { outcome } => Some(outcome),
        step => if steps == 0 {
            None
        } else {
            let found = match step {
                SaveStepView::FindParent => SaveEventView::Parent { exists: answers.parent_exists },
                SaveStepView::CreateParent => SaveEventView::ParentCreated {
                    failure: answers.create_failure,
                },
                _ => SaveEventView::Written { failure: answers.write_failure },
            };
            save_outcome(answers, found, (steps - 1) as nat)
        },
    }
}

/// A save ends after at most three steps. It fails with what the system
/// said of the directory, where one had to be made and could not be; else
/// with what the system said of the file, where that could not be written;
/// and else it succeeds.
pub proof fn law_save_outcome(answers: SaveAnswers)
    ensures
        save_outcome(answers, SaveEventView::Begin, 3) == Some(
            if answers.parent_exists == Some(false) && answers.create_failure.is_some() {
                Err(StoreErrorView::WriteFailure { cause: answers.create_failure.unwrap() })
            } else if answers.write_failure.is_some() {
                Err(StoreErrorView::WriteFailure { cause: answers.write_failure.unwrap() })
            } else {
                Ok(())
            },
        ),
{
    reveal_with_fuel(save_outcome, 4);
}

} // verus!
