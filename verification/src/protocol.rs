//! What passes between the store and its caller: the actions that the store
//! asks for, the events that the caller reports, and the errors that an
//! operation can end with.

use vstd::prelude::*;
use vstd::string::*;

verus! {

/// Why an operation failed.
#[derive(Clone, Copy, Debug, PartialEq, Eq, Structural)]
pub enum StoreError {
    /// A task of that name exists already.
    AlreadyExists,
    /// No file holds the task, or its name is empty, which no task's is.
    NotFound,
    /// The name of a task that is to be added, or the new name of a task
    /// that is to be renamed, is empty.
    EmptyName,
    /// The new name of a task is its current name.
    SameName,
    /// The editor ended with a status other than zero.
    EditorFailed,
    /// The task's script ended with a status other than zero.
    CommandFailed,
    /// The fuzzy finder ended with a status that is neither success nor
    /// cancellation.
    SelectorFailed,
    /// What the fuzzy finder wrote is not UTF-8.
    SelectorOutput,
    /// The prompt picked an item that it was not offered.
    BadChoice,
    /// The storage directory could not be read.
    ReadStorage,
    /// The scratch file could not be created.
    WriteScratch,
    /// The scratch file could not be read.
    ReadScratch,
    /// The scratch file could not be removed.
    RemoveScratch,
    /// The editor could not be started.
    OpenEditor,
    /// The task's file could not be written.
    WriteCommand,
    /// The shell could not be started.
    Execute,
    /// The fuzzy finder could not be started or talked to.
    SpawnSelector,
    /// The prompt failed.
    Prompt,
    /// The answer to a question could not be read.
    ReadInput,
    /// The task's file could not be removed.
    Delete,
    /// The task's file could not be renamed.
    Rename,
    /// The event does not answer the action that was asked for.
    Unexpected,
}

/// The classes that the errors fall into.
#[derive(Clone, Copy, Debug, PartialEq, Eq, Structural)]
pub enum ErrorKind {
    NotFound,
    AlreadyExists,
    InvalidInput,
    Subprocess,
    Io,
    Protocol,
}

/// An entry of the storage directory.
#[derive(Debug, PartialEq, Eq)]
pub struct Entry {
    /// The entry's name within the directory.
    pub file_name: String,
    /// Whether the entry is a regular file.
    pub is_file: bool,
}

/// An entry of the storage directory, as plain values.
pub struct EntryView {
    pub file_name: Seq<char>,
    pub is_file: bool,
}

impl View for Entry {
    type V = EntryView;

    open spec fn view(&self) -> EntryView {
        EntryView { file_name: self.file_name@, is_file: self.is_file }
    }
}

/// What the store asks its caller to do. The comment on each variant names
/// the event that answers it where the action was performed; where it could
/// not be, `Event::Failed` answers it. `Exists` and `Print` are always
/// performed, and nothing answers `Finish`.
#[derive(Debug, PartialEq, Eq)]
pub enum Action {
    /// List the directory `dir`. Answered by `Event::Entries`.
    ReadStorage { dir: String },
    /// Tell whether anything exists at `path`. Answered by `Event::Exists`.
    Exists { path: String },
    /// Run `program` with `args` and wait for it; with `quiet`, discard what
    /// it prints. Answered by `Event::Exited`.
    Launch { program: String, args: Vec<String>, quiet: bool },
    /// Run `program` with `args`, write `input` to its standard input and
    /// collect its standard output. Answered by `Event::Output`.
    Pipe { program: String, args: Vec<String>, input: String },
    /// Let the user pick one of `items` under `prompt`. Answered by
    /// `Event::Chosen`.
    Choose { prompt: String, items: Vec<String> },
    /// Show `prompt` and read a line. Answered by `Event::Line`.
    Ask { prompt: String },
    /// Create an empty scratch file. Answered by `Event::Scratch`.
    CreateScratch,
    /// Read the file at `path`. Answered by `Event::Contents`.
    ReadFile { path: String },
    /// Write `contents` to the file at `path`. Answered by `Event::Done`.
    WriteFile { path: String, contents: String },
    /// Remove the file at `path`. Answered by `Event::Done`.
    RemoveFile { path: String },
    /// Rename the file at `from` to `to`, in one step. Answered by
    /// `Event::Done`.
    RenameFile { from: String, to: String },
    /// Print `lines`, one per line. Answered by `Event::Done`.
    Print { lines: Vec<String> },
    /// The operation is over, with this result. Nothing answers it.
    Finish(Result<(), StoreError>),
}

/// An action, as plain values.
pub enum ActionView {
    ReadStorage { dir: Seq<char> },
    Exists { path: Seq<char> },
    Launch { program: Seq<char>, args: Seq<Seq<char>>, quiet: bool },
    Pipe { program: Seq<char>, args: Seq<Seq<char>>, input: Seq<char> },
    Choose { prompt: Seq<char>, items: Seq<Seq<char>> },
    Ask { prompt: Seq<char> },
    CreateScratch,
    ReadFile { path: Seq<char> },
    WriteFile { path: Seq<char>, contents: Seq<char> },
    RemoveFile { path: Seq<char> },
    RenameFile { from: Seq<char>, to: Seq<char> },
    Print { lines: Seq<Seq<char>> },
    Finish(Result<(), StoreError>),
}

/// The text of an optional string.
pub open spec fn text_of(s: Option<String>) -> Option<Seq<char>> {
    match s {
        Some(text) => Some(text@),
        None => None,
    }
}

/// The texts that a list of strings holds.
pub open spec fn texts(v: Seq<String>) -> Seq<Seq<char>> {
    v.map_values(|s: String| s@)
}

/// The entries that a list of entries holds.
pub open spec fn entries(v: Seq<Entry>) -> Seq<EntryView> {
    v.map_values(|e: Entry| e@)
}

impl View for Action {
    type V = ActionView;

    open spec fn view(&self) -> ActionView {
        match *self {
            Action::ReadStorage { dir } => ActionView::ReadStorage { dir: dir@ },
            Action::Exists { path } => ActionView::Exists { path: path@ },
            Action::Launch { program, args, quiet } => ActionView::Launch {
                program: program@,
                args: texts(args@),
                quiet,
            },
            Action::Pipe { program, args, input } => ActionView::Pipe {
                program: program@,
                args: texts(args@),
                input: input@,
            },
            Action::Choose { prompt, items } => ActionView::Choose {
                prompt: prompt@,
                items: texts(items@),
            },
            Action::Ask { prompt } => ActionView::Ask { prompt: prompt@ },
            Action::CreateScratch => ActionView::CreateScratch,
            Action::ReadFile { path } => ActionView::ReadFile { path: path@ },
            Action::WriteFile { path, contents } => ActionView::WriteFile {
                path: path@,
                contents: contents@,
            },
            Action::RemoveFile { path } => ActionView::RemoveFile { path: path@ },
            Action::RenameFile { from, to } => ActionView::RenameFile { from: from@, to: to@ },
            Action::Print { lines } => ActionView::Print { lines: texts(lines@) },
            Action::Finish(result) => ActionView::Finish(result),
        }
    }
}

/// What the caller reports after it has performed an action.
#[derive(Debug, PartialEq, Eq)]
pub enum Event {
    /// The entries of the directory.
    Entries(Vec<Entry>),
    /// Whether the path exists.
    Exists(bool),
    /// The program ran and ended with this exit code; `None` where it ended
    /// without one.
    Exited(Option<i32>),
    /// The program ran and ended with `code`; `stdout` is what it wrote, or
    /// `None` where that is not UTF-8.
    Output { code: Option<i32>, stdout: Option<String> },
    /// The index of the item that the user picked, or `None` where the user
    /// picked none.
    Chosen(Option<usize>),
    /// The line that the user typed.
    Line(String),
    /// The path of the scratch file.
    Scratch(String),
    /// What the file holds.
    Contents(String),
    /// The action was performed.
    Done,
    /// The action could not be performed.
    Failed,
}

/// An event, as plain values.
pub enum EventView {
    Entries(Seq<EntryView>),
    Exists(bool),
    Exited(Option<i32>),
    Output { code: Option<i32>, stdout: Option<Seq<char>> },
    Chosen(Option<usize>),
    Line(Seq<char>),
    Scratch(Seq<char>),
    Contents(Seq<char>),
    Done,
    Failed,
}

impl View for Event {
    type V = EventView;

    open spec fn view(&self) -> EventView {
        match *self {
            Event::Entries(list) => EventView::Entries(entries(list@)),
            Event::Exists(found) => EventView::Exists(found),
            Event::Exited(code) => EventView::Exited(code),
            Event::Output { code, stdout } => EventView::Output {
                code,
                stdout: match stdout {
                    Some(text) => Some(text@),
                    None => None,
                },
            },
            Event::Chosen(index) => EventView::Chosen(index),
            Event::Line(text) => EventView::Line(text@),
            Event::Scratch(path) => EventView::Scratch(path@),
            Event::Contents(text) => EventView::Contents(text@),
            Event::Done => EventView::Done,
            Event::Failed => EventView::Failed,
        }
    }
}

impl StoreError {
    /// The class of the error.
    pub open spec fn kind_of(self) -> ErrorKind {
        match self {
            StoreError::NotFound => ErrorKind::NotFound,
            StoreError::AlreadyExists => ErrorKind::AlreadyExists,
            StoreError::EmptyName | StoreError::SameName => ErrorKind::InvalidInput,
            StoreError::EditorFailed
            | StoreError::CommandFailed
            | StoreError::SelectorFailed => ErrorKind::Subprocess,
            StoreError::Unexpected | StoreError::BadChoice => ErrorKind::Protocol,
            _ => ErrorKind::Io,
        }
    }

    /// The error in words.
    pub open spec fn text(self) -> Seq<char> {
        match self {
            StoreError::AlreadyExists => "Command with this name already exists"@,
            StoreError::NotFound => "Command not found"@,
            StoreError::EmptyName => "New name cannot be empty"@,
            StoreError::SameName => "Current name and new name cannot be the same"@,
            StoreError::EditorFailed => "Editor exited with non-zero status"@,
            StoreError::CommandFailed => "Command exited with non-zero status"@,
            StoreError::SelectorFailed => "fzf exited with an error"@,
            StoreError::SelectorOutput => "Failed to parse fzf output"@,
            StoreError::BadChoice => "The prompt picked an item that it was not offered"@,
            StoreError::ReadStorage => "Failed to read storage directory"@,
            StoreError::WriteScratch => "Failed to write to temp file"@,
            StoreError::ReadScratch => "Failed to read temp file"@,
            StoreError::RemoveScratch => "Failed to remove temp file"@,
            StoreError::OpenEditor => "Failed to open editor"@,
            StoreError::WriteCommand => "Failed to write command file"@,
            StoreError::Execute => "Failed to execute command"@,
            StoreError::SpawnSelector => "Failed to run fzf"@,
            StoreError::Prompt => "Failed to show the selection prompt"@,
            StoreError::ReadInput => "Failed to read input"@,
            StoreError::Delete => "Failed to delete command"@,
            StoreError::Rename => "Failed to rename command file"@,
            StoreError::Unexpected => "The event does not answer the pending action"@,
        }
    }

    /// The class of the error.
    pub fn kind(&self) -> (r: ErrorKind)
        ensures
            r == self.kind_of(),
    {
        match self {
            StoreError::NotFound => ErrorKind::NotFound,
            StoreError::AlreadyExists => ErrorKind::AlreadyExists,
            StoreError::EmptyName | StoreError::SameName => ErrorKind::InvalidInput,
            StoreError::EditorFailed
            | StoreError::CommandFailed
            | StoreError::SelectorFailed => ErrorKind::Subprocess,
            StoreError::Unexpected | StoreError::BadChoice => ErrorKind::Protocol,
            _ => ErrorKind::Io,
        }
    }

    /// The error in words.
    pub fn message(&self) -> (r: String)
        ensures
            r@ == self.text(),
    {
        let text: &str = match self {
            StoreError::AlreadyExists => "Command with this name already exists",
            StoreError::NotFound => "Command not found",
            StoreError::EmptyName => "New name cannot be empty",
            StoreError::SameName => "Current name and new name cannot be the same",
            StoreError::EditorFailed => "Editor exited with non-zero status",
            StoreError::CommandFailed => "Command exited with non-zero status",
            StoreError::SelectorFailed => "fzf exited with an error",
            StoreError::SelectorOutput => "Failed to parse fzf output",
            StoreError::BadChoice => "The prompt picked an item that it was not offered",
            StoreError::ReadStorage => "Failed to read storage directory",
            StoreError::WriteScratch => "Failed to write to temp file",
            StoreError::ReadScratch => "Failed to read temp file",
            StoreError::RemoveScratch => "Failed to remove temp file",
            StoreError::OpenEditor => "Failed to open editor",
            StoreError::WriteCommand => "Failed to write command file",
            StoreError::Execute => "Failed to execute command",
            StoreError::SpawnSelector => "Failed to run fzf",
            StoreError::Prompt => "Failed to show the selection prompt",
            StoreError::ReadInput => "Failed to read input",
            StoreError::Delete => "Failed to delete command",
            StoreError::Rename => "Failed to rename command file",
            StoreError::Unexpected => "The event does not answer the pending action",
        };
        String::from_str(text)
    }
}

/// A copy of `list`.
pub fn copy_texts(list: &Vec<String>) -> (r: Vec<String>)
    ensures
        texts(r@) == texts(list@),
{
    let mut r: Vec<String> = Vec::new();
    let mut i: usize = 0;
    while i < list.len()
        invariant
            i <= list.len(),
            r.len() == i,
            forall|j: int| 0 <= j < i ==> r@[j]@ == list@[j]@,
        decreases list.len() - i,
    {
        r.push(list[i].clone());
        i += 1;
    }
    assert(texts(r@) =~= texts(list@));
    r
}

} // verus!
