//! The store as a state machine over plain mathematical values: what it
//! remembers, and how each event moves it on.

use vstd::prelude::*;
use crate::fzf::{available, probe_of, selecting_of, selection_of};
use crate::path::{file_name_of, is_task_file, joined, task_of};
use crate::protocol::{ActionView, EntryView, EventView, StoreError};
use crate::text::{blank, trimmed};

verus! {

/// What is done to a task once it has been picked.
#[derive(Clone, Copy, Debug, PartialEq, Eq, Structural)]
pub enum Verb {
    Run,
    Edit,
    Delete,
}

/// What the store is made with, and the tasks it has seen.
pub struct StoreView {
    pub editor: Seq<char>,
    pub storage: Seq<char>,
    pub windows: bool,
    pub tasks: Seq<Seq<char>>,
}

/// Where an operation stands: each variant but `Idle` and `Finished` waits
/// for the answer to the action that was handed out last.
pub enum PhaseView {
    Idle,
    AddListing { name: Seq<char> },
    AddScratch { name: Seq<char> },
    AddEditing { name: Seq<char>, scratch: Seq<char> },
    AddReading { name: Seq<char>, scratch: Seq<char> },
    AddCleaning { name: Seq<char>, buffer: Seq<char> },
    ListListing,
    PickListing { verb: Verb },
    ProbeFinder { verb: Verb },
    ProbeViewer { verb: Verb },
    Finding { verb: Verb },
    Prompting { verb: Verb },
    Checking { verb: Verb, name: Seq<char> },
    Executing { verb: Verb },
    Confirming { name: Seq<char> },
    RenameListing { current: Seq<char>, new: Seq<char> },
    RenameCheckingCurrent { current: Seq<char>, new: Seq<char> },
    RenameCheckingNew { current: Seq<char>, new: Seq<char> },
    Closing { failure: StoreError },
    Finished,
}

/// The store in the course of an operation.
pub struct StateView {
    pub store: StoreView,
    pub phase: PhaseView,
}

/// The tasks among the entries of a directory, in the order of the entries:
/// the regular files whose names are those of task files.
pub open spec fn task_names(list: Seq<EntryView>) -> Seq<Seq<char>>
    decreases list.len(),
{
    if list.len() == 0 {
        Seq::empty()
    } else {
        let before = task_names(list.drop_last());
        let entry = list.last();
        if entry.is_file && is_task_file(entry.file_name) {
            before.push(task_of(entry.file_name))
        } else {
            before
        }
    }
}

/// The header over a selection.
pub open spec fn header_of(verb: Verb) -> Seq<char> {
    match verb {
        Verb::Run => "Select a command to run"@,
        Verb::Edit => "Select a command to edit"@,
        Verb::Delete => "Select a command to delete"@,
    }
}

/// What is printed where the storage holds no task, with or without the
/// advice to add one.
pub open spec fn hint_of(advice: bool) -> Seq<Seq<char>> {
    if advice {
        seq!["No commands found."@, "Use `zerp add <name>` to add a new command."@]
    } else {
        seq!["No commands found."@]
    }
}

/// The question asked before the task `name` is deleted.
pub open spec fn question_of(name: Seq<char>) -> Seq<char> {
    "Are you sure you want to delete "@ + name + " command? (y/N): "@
}

/// Whether `answer` agrees to a deletion: trimmed, it is `y` or `Y`.
pub open spec fn agrees(answer: Seq<char>) -> bool {
    trimmed(answer) == "y"@ || trimmed(answer) == "Y"@
}

impl StoreView {
    /// The path of the file that holds the task `name`.
    pub open spec fn file_path(self, name: Seq<char>) -> Seq<char> {
        joined(self.storage, file_name_of(name))
    }

    /// The store after it has seen the entries `list`.
    pub open spec fn seeing(self, list: Seq<EntryView>) -> StoreView {
        StoreView { tasks: self.tasks + task_names(list), ..self }
    }

    /// Moves to `phase` and asks for `action`.
    pub open spec fn go(self, phase: PhaseView, action: ActionView) -> (StateView, ActionView) {
        (StateView { store: self, phase }, action)
    }

    /// Ends the operation with `result`.
    pub open spec fn finish(self, result: Result<(), StoreError>) -> (StateView, ActionView) {
        self.go(PhaseView::Finished, ActionView::Finish(result))
    }

    /// Asks for a last `action`, after which the operation has succeeded;
    /// it ends with `failure` if the action cannot be performed.
    pub open spec fn close(self, action: ActionView, failure: StoreError) -> (
        StateView,
        ActionView,
    ) {
        self.go(PhaseView::Closing { failure }, action)
    }

    /// Asks for the storage directory to be listed.
    pub open spec fn list_storage(self, phase: PhaseView) -> (StateView, ActionView) {
        self.go(phase, ActionView::ReadStorage { dir: self.storage })
    }

    /// Starts on the task `name`, now that it is known: asks whether its file
    /// exists. No task has the empty name, so that name is not found, and
    /// nothing is asked about it.
    pub open spec fn resolve(self, verb: Verb, name: Seq<char>) -> (StateView, ActionView) {
        if name.len() == 0 {
            self.finish(Err(StoreError::NotFound))
        } else {
            self.go(
                PhaseView::Checking { verb, name },
                ActionView::Exists { path: self.file_path(name) },
            )
        }
    }

    /// Starts to add the task `name`: refuses the empty name, and else asks
    /// for the tasks there are.
    pub open spec fn begin_add(self, name: Seq<char>) -> (StateView, ActionView) {
        if name.len() == 0 {
            self.finish(Err(StoreError::EmptyName))
        } else {
            self.list_storage(PhaseView::AddListing { name })
        }
    }

    /// Starts to list the tasks: asks for the tasks there are.
    pub open spec fn begin_list(self) -> (StateView, ActionView) {
        self.list_storage(PhaseView::ListListing)
    }

    /// Starts on the task `name`, or asks for the tasks there are, for the
    /// user to pick one.
    pub open spec fn begin_pick(self, verb: Verb, name: Option<Seq<char>>) -> (
        StateView,
        ActionView,
    ) {
        match name {
            Some(name) => self.resolve(verb, name),
            None => self.list_storage(PhaseView::PickListing { verb }),
        }
    }

    /// Starts to rename `current` to `new`: refuses an empty new name, then a
    /// new name that is the current one, and else asks for the tasks there
    /// are.
    pub open spec fn begin_rename(self, current: Seq<char>, new: Seq<char>) -> (
        StateView,
        ActionView,
    ) {
        if new.len() == 0 {
            self.finish(Err(StoreError::EmptyName))
        } else if current == new {
            self.finish(Err(StoreError::SameName))
        } else {
            self.list_storage(PhaseView::RenameListing { current, new })
        }
    }

    /// The directory is listed: a name that is taken ends the operation, any
    /// other has an empty scratch file made for the editor.
    pub open spec fn after_add_listing(self, name: Seq<char>, e: EventView) -> (
        StateView,
        ActionView,
    ) {
        match e {
            EventView::Entries(list) => {
                let store = self.seeing(list);
                if store.tasks.contains(name) {
                    store.finish(Err(StoreError::AlreadyExists))
                } else {
                    store.go(PhaseView::AddScratch { name }, ActionView::CreateScratch)
                }
            },
            EventView::Failed => self.finish(Err(StoreError::ReadStorage)),
            _ => self.finish(Err(StoreError::Unexpected)),
        }
    }

    /// The scratch file is there: the editor is opened on it.
    pub open spec fn after_add_scratch(self, name: Seq<char>, e: EventView) -> (
        StateView,
        ActionView,
    ) {
        match e {
            EventView::Scratch(scratch) => self.go(
                PhaseView::AddEditing { name, scratch },
                ActionView::Launch { program: self.editor, args: seq![scratch], quiet: false },
            ),
            EventView::Failed => self.finish(Err(StoreError::WriteScratch)),
            _ => self.finish(Err(StoreError::Unexpected)),
        }
    }

    /// The editor has ended: after success the scratch file is read.
    pub open spec fn after_add_editing(self, name: Seq<char>, scratch: Seq<char>, e: EventView) -> (
        StateView,
        ActionView,
    ) {
        match e {
            EventView::Exited(code) => if code == Some(0i32) {
                self.go(
                    PhaseView::AddReading { name, scratch },
                    ActionView::ReadFile { path: scratch },
                )
            } else {
                self.finish(Err(StoreError::EditorFailed))
            },
            EventView::Failed => self.finish(Err(StoreError::OpenEditor)),
            _ => self.finish(Err(StoreError::Unexpected)),
        }
    }

    /// The scratch file is read: it is removed.
    pub open spec fn after_add_reading(self, name: Seq<char>, scratch: Seq<char>, e: EventView) -> (
        StateView,
        ActionView,
    ) {
        match e {
            EventView::Contents(buffer) => self.go(
                PhaseView::AddCleaning { name, buffer },
                ActionView::RemoveFile { path: scratch },
            ),
            EventView::Failed => self.finish(Err(StoreError::ReadScratch)),
            _ => self.finish(Err(StoreError::Unexpected)),
        }
    }

    /// The scratch file is gone: a buffer that is not blank is written to
    /// the task's file, as it is.
    pub open spec fn after_add_cleaning(self, name: Seq<char>, buffer: Seq<char>, e: EventView) -> (
        StateView,
        ActionView,
    ) {
        match e {
            EventView::Done => if blank(buffer) {
                self.finish(Ok(()))
            } else {
                self.close(
                    ActionView::WriteFile { path: self.file_path(name), contents: buffer },
                    StoreError::WriteCommand,
                )
            },
            EventView::Failed => self.finish(Err(StoreError::RemoveScratch)),
            _ => self.finish(Err(StoreError::Unexpected)),
        }
    }

    /// The directory is listed: the tasks are printed, or the hint where
    /// there is none.
    pub open spec fn after_list_listing(self, e: EventView) -> (StateView, ActionView) {
        match e {
            EventView::Entries(list) => {
                let store = self.seeing(list);
                store.close(
                    ActionView::Print {
                        lines: if store.tasks.len() == 0 {
                            hint_of(true)
                        } else {
                            store.tasks
                        },
                    },
                    StoreError::Unexpected,
                )
            },
            EventView::Failed => self.finish(Err(StoreError::ReadStorage)),
            _ => self.finish(Err(StoreError::Unexpected)),
        }
    }

    /// The directory is listed: without a task the hint is printed, else the
    /// fuzzy finder is looked for.
    pub open spec fn after_pick_listing(self, verb: Verb, e: EventView) -> (StateView, ActionView) {
        match e {
            EventView::Entries(list) => {
                let store = self.seeing(list);
                if store.tasks.len() == 0 {
                    store.close(
                        ActionView::Print { lines: hint_of(verb != Verb::Delete) },
                        StoreError::Unexpected,
                    )
                } else {
                    store.go(PhaseView::ProbeFinder { verb }, probe_of("fzf"@, store.windows))
                }
            },
            EventView::Failed => self.finish(Err(StoreError::ReadStorage)),
            _ => self.finish(Err(StoreError::Unexpected)),
        }
    }

    /// The fuzzy finder was looked for: where it is there the viewer is
    /// looked for, else the user picks from a plain list.
    pub open spec fn after_probe_finder(self, verb: Verb, e: EventView) -> (StateView, ActionView) {
        match e {
            EventView::Exited(_) | EventView::Failed => if available(e) {
                self.go(PhaseView::ProbeViewer { verb }, probe_of("bat"@, self.windows))
            } else {
                self.go(
                    PhaseView::Prompting { verb },
                    ActionView::Choose { prompt: header_of(verb), items: self.tasks },
                )
            },
            _ => self.finish(Err(StoreError::Unexpected)),
        }
    }

    /// The viewer was looked for: the fuzzy finder is run, unless there is
    /// no task to pick from, which ends the operation with success.
    pub open spec fn after_probe_viewer(self, verb: Verb, e: EventView) -> (StateView, ActionView) {
        match e {
            EventView::Exited(_) | EventView::Failed => match selecting_of(
                self.storage,
                header_of(verb),
                self.tasks,
                available(e),
                self.windows,
            ) {
                Some(action) => self.go(PhaseView::Finding { verb }, action),
                None => self.finish(Ok(())),
            },
            _ => self.finish(Err(StoreError::Unexpected)),
        }
    }

    /// The fuzzy finder has ended: the task it selected is started on; a
    /// selection of nothing ends the operation with success.
    pub open spec fn after_finding(self, verb: Verb, e: EventView) -> (StateView, ActionView) {
        match e {
            EventView::Output { code, stdout } => match selection_of(code, stdout) {
                Ok(Some(name)) => self.resolve(verb, name),
                Ok(None) => self.finish(Ok(())),
                Err(error) => self.finish(Err(error)),
            },
            EventView::Failed => self.finish(Err(StoreError::SpawnSelector)),
            _ => self.finish(Err(StoreError::Unexpected)),
        }
    }

    /// The user has picked from the list: the task is started on; a pick of
    /// nothing ends the operation with success.
    pub open spec fn after_prompting(self, verb: Verb, e: EventView) -> (StateView, ActionView) {
        match e {
            EventView::Chosen(Some(index)) => if index < self.tasks.len() {
                self.resolve(verb, self.tasks[index as int])
            } else {
                self.finish(Err(StoreError::BadChoice))
            },
            EventView::Chosen(None) => self.finish(Ok(())),
            EventView::Failed => self.finish(Err(StoreError::Prompt)),
            _ => self.finish(Err(StoreError::Unexpected)),
        }
    }

    /// The task's file was looked for: a task without a file is not found;
    /// else the file is run or edited, or the user is asked whether to
    /// delete it.
    pub open spec fn after_checking(self, verb: Verb, name: Seq<char>, e: EventView) -> (
        StateView,
        ActionView,
    ) {
        match e {
            EventView::Exists(true) => match verb {
                Verb::Run => self.go(
                    PhaseView::Executing { verb },
                    ActionView::Launch {
                        program: "sh"@,
                        args: seq![self.file_path(name)],
                        quiet: false,
                    },
                ),
                Verb::Edit => self.go(
                    PhaseView::Executing { verb },
                    ActionView::Launch {
                        program: self.editor,
                        args: seq![self.file_path(name)],
                        quiet: false,
                    },
                ),
                Verb::Delete => self.go(
                    PhaseView::Confirming { name },
                    ActionView::Ask { prompt: question_of(name) },
                ),
            },
            EventView::Exists(false) => self.finish(Err(StoreError::NotFound)),
            _ => self.finish(Err(StoreError::Unexpected)),
        }
    }

    /// The shell or the editor has ended: the operation succeeds where it
    /// did.
    pub open spec fn after_executing(self, verb: Verb, e: EventView) -> (StateView, ActionView) {
        match e {
            EventView::Exited(code) => if code == Some(0i32) {
                self.finish(Ok(()))
            } else if verb == Verb::Edit {
                self.finish(Err(StoreError::EditorFailed))
            } else {
                self.finish(Err(StoreError::CommandFailed))
            },
            EventView::Failed => if verb == Verb::Edit {
                self.finish(Err(StoreError::OpenEditor))
            } else {
                self.finish(Err(StoreError::Execute))
            },
            _ => self.finish(Err(StoreError::Unexpected)),
        }
    }

    /// The user has answered: the file is removed where the answer agrees,
    /// and left where it does not.
    pub open spec fn after_confirming(self, name: Seq<char>, e: EventView) -> (
        StateView,
        ActionView,
    ) {
        match e {
            EventView::Line(answer) => if agrees(answer) {
                self.close(
                    ActionView::RemoveFile { path: self.file_path(name) },
                    StoreError::Delete,
                )
            } else {
                self.finish(Ok(()))
            },
            EventView::Failed => self.finish(Err(StoreError::ReadInput)),
            _ => self.finish(Err(StoreError::Unexpected)),
        }
    }

    /// The directory is listed: a new name that is taken ends the operation;
    /// so does a current name that is empty, which no task has; else the
    /// current task's file is looked for.
    pub open spec fn after_rename_listing(self, current: Seq<char>, new: Seq<char>, e: EventView)
        -> (StateView, ActionView) {
        match e {
            EventView::Entries(list) => {
                let store = self.seeing(list);
                if store.tasks.contains(new) {
                    store.finish(Err(StoreError::AlreadyExists))
                } else if current.len() == 0 {
                    store.finish(Err(StoreError::NotFound))
                } else {
                    store.go(
                        PhaseView::RenameCheckingCurrent { current, new },
                        ActionView::Exists { path: store.file_path(current) },
                    )
                }
            },
            EventView::Failed => self.finish(Err(StoreError::ReadStorage)),
            _ => self.finish(Err(StoreError::Unexpected)),
        }
    }

    /// The current task's file was looked for: without it the task is not
    /// found; else the new task's file is looked for.
    pub open spec fn after_rename_checking_current(
        self,
        current: Seq<char>,
        new: Seq<char>,
        e: EventView,
    ) -> (StateView, ActionView) {
        match e {
            EventView::Exists(true) => self.go(
                PhaseView::RenameCheckingNew { current, new },
                ActionView::Exists { path: self.file_path(new) },
            ),
            EventView::Exists(false) => self.finish(Err(StoreError::NotFound)),
            _ => self.finish(Err(StoreError::Unexpected)),
        }
    }

    /// The new task's file was looked for: where it is there the name is
    /// taken; else the file is renamed.
    pub open spec fn after_rename_checking_new(
        self,
        current: Seq<char>,
        new: Seq<char>,
        e: EventView,
    ) -> (StateView, ActionView) {
        match e {
            EventView::Exists(false) => self.close(
                ActionView::RenameFile { from: self.file_path(current), to: self.file_path(new) },
                StoreError::Rename,
            ),
            EventView::Exists(true) => self.finish(Err(StoreError::AlreadyExists)),
            _ => self.finish(Err(StoreError::Unexpected)),
        }
    }

    /// The last action was performed, or could not be.
    pub open spec fn after_closing(self, failure: StoreError, e: EventView) -> (
        StateView,
        ActionView,
    ) {
        match e {
            EventView::Done => self.finish(Ok(())),
            EventView::Failed => self.finish(Err(failure)),
            _ => self.finish(Err(StoreError::Unexpected)),
        }
    }
}

impl StateView {
    /// Whether an operation can start.
    pub open spec fn idle(self) -> bool {
        self.phase is Idle
    }

    /// Starts an operation unless one has started already.
    pub open spec fn begin(self, started: (StateView, ActionView)) -> (StateView, ActionView) {
        if self.idle() {
            started
        } else {
            self.store.finish(Err(StoreError::Unexpected))
        }
    }

    /// Starts to add a task called `name`.
    pub open spec fn add(self, name: Seq<char>) -> (StateView, ActionView) {
        self.begin(self.store.begin_add(name))
    }

    /// Starts to list the tasks.
    pub open spec fn list(self) -> (StateView, ActionView) {
        self.begin(self.store.begin_list())
    }

    /// Starts to run the task `name`, or one that the user picks.
    pub open spec fn run(self, name: Option<Seq<char>>) -> (StateView, ActionView) {
        self.begin(self.store.begin_pick(Verb::Run, name))
    }

    /// Starts to edit the task `name`, or one that the user picks.
    pub open spec fn edit(self, name: Option<Seq<char>>) -> (StateView, ActionView) {
        self.begin(self.store.begin_pick(Verb::Edit, name))
    }

    /// Starts to delete the task `name`, or one that the user picks.
    pub open spec fn delete(self, name: Option<Seq<char>>) -> (StateView, ActionView) {
        self.begin(self.store.begin_pick(Verb::Delete, name))
    }

    /// Starts to rename the task `current` to `new`.
    pub open spec fn rename(self, current: Seq<char>, new: Seq<char>) -> (StateView, ActionView) {
        self.begin(self.store.begin_rename(current, new))
    }

    /// Where the operation stands after the event `e`, and what it asks for
    /// next. An event that does not answer the action asked for ends the
    /// operation with `StoreError::Unexpected`, and so does any event once
    /// the operation is over or before one has started.
    pub open spec fn step(self, e: EventView) -> (StateView, ActionView) {
        let store = self.store;
        match self.phase {
            PhaseView::Idle | PhaseView::Finished => store.finish(Err(StoreError::Unexpected)),
            PhaseView::AddListing { name } => store.after_add_listing(name, e),
            PhaseView::AddScratch { name } => store.after_add_scratch(name, e),
            PhaseView::AddEditing { name, scratch } => store.after_add_editing(name, scratch, e),
            PhaseView::AddReading { name, scratch } => store.after_add_reading(name, scratch, e),
            PhaseView::AddCleaning { name, buffer } => store.after_add_cleaning(name, buffer, e),
            PhaseView::ListListing => store.after_list_listing(e),
            PhaseView::PickListing { verb } => store.after_pick_listing(verb, e),
            PhaseView::ProbeFinder { verb } => store.after_probe_finder(verb, e),
            PhaseView::ProbeViewer { verb } => store.after_probe_viewer(verb, e),
            PhaseView::Finding { verb } => store.after_finding(verb, e),
            PhaseView::Prompting { verb } => store.after_prompting(verb, e),
            PhaseView::Checking { verb, name } => store.after_checking(verb, name, e),
            PhaseView::Executing { verb } => store.after_executing(verb, e),
            PhaseView::Confirming { name } => store.after_confirming(name, e),
            PhaseView::RenameListing { current, new } => store.after_rename_listing(
                current,
                new,
                e,
            ),
            PhaseView::RenameCheckingCurrent { current, new } => store.after_rename_checking_current(
                current,
                new,
                e,
            ),
            PhaseView::RenameCheckingNew { current, new } => store.after_rename_checking_new(
                current,
                new,
                e,
            ),
            PhaseView::Closing { failure } => store.after_closing(failure, e),
        }
    }
}

} // verus!
