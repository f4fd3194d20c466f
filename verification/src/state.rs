//! The store: the tasks of one storage directory, and the operations on them.

use vstd::prelude::*;
use vstd::string::*;
use crate::fzf::{is_fzf_available, probe, probe_of, select_task_with_preview, selection};
use crate::model::{
    agrees, header_of, hint_of, question_of, task_names, PhaseView, StateView, StoreView, Verb,
};
use crate::path::{join_path, task_file_name, task_name};
use crate::protocol::{
    copy_texts, entries, text_of, texts, Action, ActionView, Entry, Event, StoreError,
};
use crate::text::{is_blank, trim_owned};

verus! {

/// What the store is made with, and the tasks it has seen.
struct Store {
    editor: String,
    storage: String,
    windows: bool,
    tasks: Vec<String>,
}

/// Where an operation stands: each variant but `Idle` and `Finished` waits for
/// the answer to the action that was handed out last.
enum Phase {
    Idle,
    AddListing { name: String },
    AddScratch { name: String },
    AddEditing { name: String, scratch: String },
    AddReading { name: String, scratch: String },
    AddCleaning { name: String, buffer: String },
    ListListing,
    PickListing { verb: Verb },
    ProbeFinder { verb: Verb },
    ProbeViewer { verb: Verb },
    Finding { verb: Verb },
    Prompting { verb: Verb },
    Checking { verb: Verb, name: String },
    Executing { verb: Verb },
    Confirming { name: String },
    RenameListing { current: String, new: String },
    RenameCheckingCurrent { current: String, new: String },
    RenameCheckingNew { current: String, new: String },
    Closing { failure: StoreError },
    Finished,
}

/// The store, before, in the course of and after one operation.
///
/// An operation starts with one of `add`, `list`, `run`, `edit`, `delete` and
/// `rename`, which hand out the first action. The caller performs the
/// action, reports the event to `step`, and goes on with the action that
/// `step` hands out, until that action is `Action::Finish`.
pub struct State {
    store: Store,
    phase: Phase,
}

impl View for Store {
    type V = StoreView;

    closed spec fn view(&self) -> StoreView {
        StoreView {
            editor: self.editor@,
            storage: self.storage@,
            windows: self.windows,
            tasks: texts(self.tasks@),
        }
    }
}

impl View for Phase {
    type V = PhaseView;

    closed spec fn view(&self) -> PhaseView {
        match *self {
            Phase::Idle => PhaseView::Idle,
            Phase::AddListing { name } => PhaseView::AddListing { name: name@ },
            Phase::AddScratch { name } => PhaseView::AddScratch { name: name@ },
            Phase::AddEditing { name, scratch } => PhaseView::AddEditing {
                name: name@,
                scratch: scratch@,
            },
            Phase::AddReading { name, scratch } => PhaseView::AddReading {
                name: name@,
                scratch: scratch@,
            },
            Phase::AddCleaning { name, buffer } => PhaseView::AddCleaning {
                name: name@,
                buffer: buffer@,
            },
            Phase::ListListing => PhaseView::ListListing,
            Phase::PickListing { verb } => PhaseView::PickListing { verb },
            Phase::ProbeFinder { verb } => PhaseView::ProbeFinder { verb },
            Phase::ProbeViewer { verb } => PhaseView::ProbeViewer { verb },
            Phase::Finding { verb } => PhaseView::Finding { verb },
            Phase::Prompting { verb } => PhaseView::Prompting { verb },
            Phase::Checking { verb, name } => PhaseView::Checking { verb, name: name@ },
            Phase::Executing { verb } => PhaseView::Executing { verb },
            Phase::Confirming { name } => PhaseView::Confirming { name: name@ },
            Phase::RenameListing { current, new } => PhaseView::RenameListing {
                current: current@,
                new: new@,
            },
            Phase::RenameCheckingCurrent { current, new } => PhaseView::RenameCheckingCurrent {
                current: current@,
                new: new@,
            },
            Phase::RenameCheckingNew { current, new } => PhaseView::RenameCheckingNew {
                current: current@,
                new: new@,
            },
            Phase::Closing { failure } => PhaseView::Closing { failure },
            Phase::Finished => PhaseView::Finished,
        }
    }
}

impl View for State {
    type V = StateView;

    closed spec fn view(&self) -> StateView {
        StateView { store: self.store@, phase: self.phase@ }
    }
}

/// What a step hands back, as plain values.
pub open spec fn shown(r: (State, Action)) -> (StateView, ActionView) {
    (r.0@, r.1@)
}

/// Whether `name` is among `tasks`.
pub fn contains(tasks: &Vec<String>, name: &String) -> (r: bool)
    ensures
        r == texts(tasks@).contains(name@),
{
    let mut i: usize = 0;
    while i < tasks.len()
        invariant
            i <= tasks.len(),
            forall|j: int| 0 <= j < i ==> texts(tasks@)[j] != name@,
        decreases tasks.len() - i,
    {
        if tasks[i] == *name {
            assert(texts(tasks@)[i as int] == name@);
            return true;
        }
        i += 1;
    }
    false
}

/// What is printed where the storage holds no task.
pub fn hint(advice: bool) -> (r: Vec<String>)
    ensures
        texts(r@) == hint_of(advice),
{
    let mut lines: Vec<String> = vec![String::from_str("No commands found.")];
    if advice {
        lines.push(String::from_str("Use `zerp add <name>` to add a new command."));
    }
    assert(texts(lines@) =~= hint_of(advice));
    lines
}

/// The header over a selection.
pub fn header(verb: Verb) -> (r: String)
    ensures
        r@ == header_of(verb),
{
    match verb {
        Verb::Run => String::from_str("Select a command to run"),
        Verb::Edit => String::from_str("Select a command to edit"),
        Verb::Delete => String::from_str("Select a command to delete"),
    }
}

/// Whether `answer` agrees to a deletion.
pub fn confirms(answer: &str) -> (r: bool)
    ensures
        r == agrees(answer@),
{
    let word = trim_owned(answer);
    word == String::from_str("y") || word == String::from_str("Y")
}

impl Store {
    /// The path of the file that holds the task `name`.
    fn file_path(&self, name: &str) -> (r: String)
        ensures
            r@ == self@.file_path(name@),
    {
        let file = task_file_name(name);
        join_path(self.storage.as_str(), file.as_str())
    }

    /// Adds to the tasks those among the entries `list`, in their order.
    fn load_tasks(self, list: Vec<Entry>) -> (r: Store)
        ensures
            r@ == self@.seeing(entries(list@)),
    {
        let ghost before = self@;
        let mut store = self;
        let mut i: usize = 0;
        while i < list.len()
            invariant
                i <= list.len(),
                store@ == before.seeing(entries(list@).take(i as int)),
            decreases list.len() - i,
        {
            let ghost seen = store.tasks@;
            let ghost next = entries(list@).take(i + 1);
            proof {
                assert(next.drop_last() =~= entries(list@).take(i as int));
                assert(next.last() == list@[i as int]@);
            }
            if list[i].is_file {
                match task_name(list[i].file_name.as_str()) {
                    Some(name) => {
                        store.tasks.push(name);
                        proof {
                            assert(texts(store.tasks@) =~= texts(seen).push(name@));
                            assert(texts(store.tasks@) =~= before.tasks + task_names(next));
                        }
                    },
                    None => {},
                }
            }
            i += 1;
        }
        assert(entries(list@).take(i as int) =~= entries(list@));
        store
    }

    fn go(self, phase: Phase, action: Action) -> (r: (State, Action))
        ensures
            shown(r) == self@.go(phase@, action@),
    {
        (State { store: self, phase }, action)
    }

    fn finish(self, result: Result<(), StoreError>) -> (r: (State, Action))
        ensures
            shown(r) == self@.finish(result),
    {
        self.go(Phase::Finished, Action::Finish(result))
    }

    fn fail(self, error: StoreError) -> (r: (State, Action))
        ensures
            shown(r) == self@.finish(Err(error)),
    {
        self.finish(Err(error))
    }

    fn close(self, action: Action, failure: StoreError) -> (r: (State, Action))
        ensures
            shown(r) == self@.close(action@, failure),
    {
        self.go(Phase::Closing { failure }, action)
    }

    fn list_storage(self, phase: Phase) -> (r: (State, Action))
        ensures
            shown(r) == self@.list_storage(phase@),
    {
        let dir = self.storage.clone();
        self.go(phase, Action::ReadStorage { dir })
    }

    fn resolve(self, verb: Verb, name: String) -> (r: (State, Action))
        ensures
            shown(r) == self@.resolve(verb, name@),
    {
        if name.as_str().is_empty() {
            return self.fail(StoreError::NotFound);
        }
        let path = self.file_path(name.as_str());
        self.go(Phase::Checking { verb, name }, Action::Exists { path })
    }

    /// Starts the selection of a task: looks for the fuzzy finder.
    fn select_command(self, verb: Verb) -> (r: (State, Action))
        ensures
            shown(r) == self@.go(
                PhaseView::ProbeFinder { verb },
                probe_of("fzf"@, self@.windows),
            ),
    {
        let action = probe("fzf", self.windows);
        self.go(Phase::ProbeFinder { verb }, action)
    }

    fn begin_rename(self, current: String, new: String) -> (r: (State, Action))
        ensures
            shown(r) == self@.begin_rename(current@, new@),
    {
        if new.as_str().is_empty() {
            self.fail(StoreError::EmptyName)
        } else if current == new {
            self.fail(StoreError::SameName)
        } else {
            self.list_storage(Phase::RenameListing { current, new })
        }
    }

    fn begin_pick(self, verb: Verb, name: Option<String>) -> (r: (State, Action))
        ensures
            shown(r) == self@.begin_pick(verb, text_of(name)),
    {
        match name {
            Some(name) => self.resolve(verb, name),
            None => self.list_storage(Phase::PickListing { verb }),
        }
    }

    fn after_add_listing(self, name: String, event: Event) -> (r: (State, Action))
        ensures
            shown(r) == self@.after_add_listing(name@, event@),
    {
        match event {
            Event::Entries(list) => {
                let store = self.load_tasks(list);
                if contains(&store.tasks, &name) {
                    store.fail(StoreError::AlreadyExists)
                } else {
                    store.go(Phase::AddScratch { name }, Action::CreateScratch)
                }
            },
            Event::Failed => self.fail(StoreError::ReadStorage),
            _ => self.fail(StoreError::Unexpected),
        }
    }

    fn after_add_scratch(self, name: String, event: Event) -> (r: (State, Action))
        ensures
            shown(r) == self@.after_add_scratch(name@, event@),
    {
        match event {
            Event::Scratch(scratch) => {
                let program = self.editor.clone();
                let args: Vec<String> = vec![scratch.clone()];
                assert(texts(args@) =~= seq![scratch@]);
                self.go(
                    Phase::AddEditing { name, scratch },
                    Action::Launch { program, args, quiet: false },
                )
            },
            Event::Failed => self.fail(StoreError::WriteScratch),
            _ => self.fail(StoreError::Unexpected),
        }
    }

    fn after_add_editing(self, name: String, scratch: String, event: Event) -> (r: (
        State,
        Action,
    ))
        ensures
            shown(r) == self@.after_add_editing(name@, scratch@, event@),
    {
        match event {
            Event::Exited(Some(0)) => {
                let path = scratch.clone();
                self.go(Phase::AddReading { name, scratch }, Action::ReadFile { path })
            },
            Event::Exited(_) => self.fail(StoreError::EditorFailed),
            Event::Failed => self.fail(StoreError::OpenEditor),
            _ => self.fail(StoreError::Unexpected),
        }
    }

    fn after_add_reading(self, name: String, scratch: String, event: Event) -> (r: (
        State,
        Action,
    ))
        ensures
            shown(r) == self@.after_add_reading(name@, scratch@, event@),
    {
        match event {
            Event::Contents(buffer) => self.go(
                Phase::AddCleaning { name, buffer },
                Action::RemoveFile { path: scratch },
            ),
            Event::Failed => self.fail(StoreError::ReadScratch),
            _ => self.fail(StoreError::Unexpected),
        }
    }

    fn after_add_cleaning(self, name: String, buffer: String, event: Event) -> (r: (
        State,
        Action,
    ))
        ensures
            shown(r) == self@.after_add_cleaning(name@, buffer@, event@),
    {
        match event {
            Event::Done => if is_blank(buffer.as_str()) {
                self.finish(Ok(()))
            } else {
                let path = self.file_path(name.as_str());
                self.close(Action::WriteFile { path, contents: buffer }, StoreError::WriteCommand)
            },
            Event::Failed => self.fail(StoreError::RemoveScratch),
            _ => self.fail(StoreError::Unexpected),
        }
    }

    fn after_list_listing(self, event: Event) -> (r: (State, Action))
        ensures
            shown(r) == self@.after_list_listing(event@),
    {
        match event {
            Event::Entries(list) => {
                let store = self.load_tasks(list);
                let lines = if store.tasks.len() == 0 {
                    hint(true)
                } else {
                    copy_texts(&store.tasks)
                };
                store.close(Action::Print { lines }, StoreError::Unexpected)
            },
            Event::Failed => self.fail(StoreError::ReadStorage),
            _ => self.fail(StoreError::Unexpected),
        }
    }

    fn after_pick_listing(self, verb: Verb, event: Event) -> (r: (State, Action))
        ensures
            shown(r) == self@.after_pick_listing(verb, event@),
    {
        match event {
            Event::Entries(list) => {
                let store = self.load_tasks(list);
                if store.tasks.len() == 0 {
                    let advice = match verb {
                        Verb::Delete => false,
                        _ => true,
                    };
                    store.close(Action::Print { lines: hint(advice) }, StoreError::Unexpected)
                } else {
                    store.select_command(verb)
                }
            },
            Event::Failed => self.fail(StoreError::ReadStorage),
            _ => self.fail(StoreError::Unexpected),
        }
    }

    fn after_probe_finder(self, verb: Verb, event: Event) -> (r: (State, Action))
        ensures
            shown(r) == self@.after_probe_finder(verb, event@),
    {
        match event {
            Event::Exited(_) | Event::Failed => if is_fzf_available(&event) {
                let action = probe("bat", self.windows);
                self.go(Phase::ProbeViewer { verb }, action)
            } else {
                let items = copy_texts(&self.tasks);
                self.go(Phase::Prompting { verb }, Action::Choose { prompt: header(verb), items })
            },
            _ => self.fail(StoreError::Unexpected),
        }
    }

    fn after_probe_viewer(self, verb: Verb, event: Event) -> (r: (State, Action))
        ensures
            shown(r) == self@.after_probe_viewer(verb, event@),
    {
        match event {
            Event::Exited(_) | Event::Failed => {
                let viewer = is_fzf_available(&event);
                let title = header(verb);
                let action = select_task_with_preview(
                    self.storage.as_str(),
                    title.as_str(),
                    &self.tasks,
                    viewer,
                    self.windows,
                );
                match action {
                    Some(action) => self.go(Phase::Finding { verb }, action),
                    None => self.finish(Ok(())),
                }
            },
            _ => self.fail(StoreError::Unexpected),
        }
    }

    fn after_finding(self, verb: Verb, event: Event) -> (r: (State, Action))
        ensures
            shown(r) == self@.after_finding(verb, event@),
    {
        match event {
            Event::Output { code, stdout } => match selection(code, stdout) {
                Ok(Some(name)) => self.resolve(verb, name),
                Ok(None) => self.finish(Ok(())),
                Err(error) => self.fail(error),
            },
            Event::Failed => self.fail(StoreError::SpawnSelector),
            _ => self.fail(StoreError::Unexpected),
        }
    }

    fn after_prompting(self, verb: Verb, event: Event) -> (r: (State, Action))
        ensures
            shown(r) == self@.after_prompting(verb, event@),
    {
        match event {
            Event::Chosen(Some(index)) => if index < self.tasks.len() {
                let name = self.tasks[index].clone();
                self.resolve(verb, name)
            } else {
                self.fail(StoreError::BadChoice)
            },
            Event::Chosen(None) => self.finish(Ok(())),
            Event::Failed => self.fail(StoreError::Prompt),
            _ => self.fail(StoreError::Unexpected),
        }
    }

    fn after_checking(self, verb: Verb, name: String, event: Event) -> (r: (State, Action))
        ensures
            shown(r) == self@.after_checking(verb, name@, event@),
    {
        match event {
            Event::Exists(true) => match verb {
                Verb::Run => {
                    let args: Vec<String> = vec![self.file_path(name.as_str())];
                    assert(texts(args@) =~= seq![self@.file_path(name@)]);
                    self.go(
                        Phase::Executing { verb },
                        Action::Launch { program: String::from_str("sh"), args, quiet: false },
                    )
                },
                Verb::Edit => {
                    let args: Vec<String> = vec![self.file_path(name.as_str())];
                    assert(texts(args@) =~= seq![self@.file_path(name@)]);
                    let program = self.editor.clone();
                    self.go(
                        Phase::Executing { verb },
                        Action::Launch { program, args, quiet: false },
                    )
                },
                Verb::Delete => {
                    let prompt = String::from_str("Are you sure you want to delete ").concat(
                        name.as_str(),
                    ).concat(" command? (y/N): ");
                    assert(prompt@ =~= question_of(name@));
                    self.go(Phase::Confirming { name }, Action::Ask { prompt })
                },
            },
            Event::Exists(false) => self.fail(StoreError::NotFound),
            _ => self.fail(StoreError::Unexpected),
        }
    }

    fn after_executing(self, verb: Verb, event: Event) -> (r: (State, Action))
        ensures
            shown(r) == self@.after_executing(verb, event@),
    {
        match event {
            Event::Exited(Some(0)) => self.finish(Ok(())),
            Event::Exited(_) => match verb {
                Verb::Edit => self.fail(StoreError::EditorFailed),
                _ => self.fail(StoreError::CommandFailed),
            },
            Event::Failed => match verb {
                Verb::Edit => self.fail(StoreError::OpenEditor),
                _ => self.fail(StoreError::Execute),
            },
            _ => self.fail(StoreError::Unexpected),
        }
    }

    fn after_confirming(self, name: String, event: Event) -> (r: (State, Action))
        ensures
            shown(r) == self@.after_confirming(name@, event@),
    {
        match event {
            Event::Line(answer) => if confirms(answer.as_str()) {
                let path = self.file_path(name.as_str());
                self.close(Action::RemoveFile { path }, StoreError::Delete)
            } else {
                self.finish(Ok(()))
            },
            Event::Failed => self.fail(StoreError::ReadInput),
            _ => self.fail(StoreError::Unexpected),
        }
    }

    fn after_rename_listing(self, current: String, new: String, event: Event) -> (r: (
        State,
        Action,
    ))
        ensures
            shown(r) == self@.after_rename_listing(current@, new@, event@),
    {
        match event {
            Event::Entries(list) => {
                let store = self.load_tasks(list);
                if contains(&store.tasks, &new) {
                    store.fail(StoreError::AlreadyExists)
                } else if current.as_str().is_empty() {
                    store.fail(StoreError::NotFound)
                } else {
                    let path = store.file_path(current.as_str());
                    store.go(
                        Phase::RenameCheckingCurrent { current, new },
                        Action::Exists { path },
                    )
                }
            },
            Event::Failed => self.fail(StoreError::ReadStorage),
            _ => self.fail(StoreError::Unexpected),
        }
    }

    fn after_rename_checking_current(self, current: String, new: String, event: Event) -> (r: (
        State,
        Action,
    ))
        ensures
            shown(r) == self@.after_rename_checking_current(current@, new@, event@),
    {
        match event {
            Event::Exists(true) => {
                let path = self.file_path(new.as_str());
                self.go(Phase::RenameCheckingNew { current, new }, Action::Exists { path })
            },
            Event::Exists(false) => self.fail(StoreError::NotFound),
            _ => self.fail(StoreError::Unexpected),
        }
    }

    fn after_rename_checking_new(self, current: String, new: String, event: Event) -> (r: (
        State,
        Action,
    ))
        ensures
            shown(r) == self@.after_rename_checking_new(current@, new@, event@),
    {
        match event {
            Event::Exists(false) => {
                let from = self.file_path(current.as_str());
                let to = self.file_path(new.as_str());
                self.close(Action::RenameFile { from, to }, StoreError::Rename)
            },
            Event::Exists(true) => self.fail(StoreError::AlreadyExists),
            _ => self.fail(StoreError::Unexpected),
        }
    }

    fn after_closing(self, failure: StoreError, event: Event) -> (r: (State, Action))
        ensures
            shown(r) == self@.after_closing(failure, event@),
    {
        match event {
            Event::Done => self.finish(Ok(())),
            Event::Failed => self.fail(failure),
            _ => self.fail(StoreError::Unexpected),
        }
    }
}

impl State {
    /// A store of the tasks in the directory `storage`, edited with `editor`:
    /// it has seen no task yet, takes the platform for other than Windows,
    /// and is ready for an operation.
    pub fn new(storage: String, editor: String) -> (r: State)
        ensures
            r@.idle(),
            r@.store == (StoreView {
                editor: editor@,
                storage: storage@,
                windows: false,
                tasks: Seq::empty(),
            }),
    {
        let tasks: Vec<String> = Vec::new();
        assert(texts(tasks@) =~= Seq::empty());
        State { store: Store { editor, storage, windows: false, tasks }, phase: Phase::Idle }
    }

    /// The same store, on Windows or not.
    pub fn on_windows(self, windows: bool) -> (r: State)
        ensures
            r@ == (StateView { store: StoreView { windows, ..self@.store }, ..self@ }),
    {
        let State { store, phase } = self;
        State { store: Store { windows, ..store }, phase }
    }

    /// The path of the file that holds the task `name`.
    pub fn get_file_path(&self, name: String) -> (r: String)
        ensures
            r@ == self@.store.file_path(name@),
    {
        self.store.file_path(name.as_str())
    }

    /// The tasks that the store has seen.
    pub fn tasks(&self) -> (r: &Vec<String>)
        ensures
            texts(r@) == self@.store.tasks,
    {
        &self.store.tasks
    }

    /// Whether the operation is over.
    pub fn is_finished(&self) -> (r: bool)
        ensures
            r == (self@.phase is Finished),
    {
        match self.phase {
            Phase::Finished => true,
            _ => false,
        }
    }

    /// Takes the state apart: `Ok` with the store where an operation can
    /// start, `Err` with it where one has started already.
    fn split(self) -> (r: Result<Store, Store>)
        ensures
            r is Ok <==> self@.idle(),
            r is Ok ==> r->Ok_0@ == self@.store,
            r is Err ==> r->Err_0@ == self@.store,
    {
        let State { store, phase } = self;
        match phase {
            Phase::Idle => Ok(store),
            _ => Err(store),
        }
    }

    /// Starts to add a task called `name`: refuses the empty name, and else
    /// asks for the tasks there are. The task is then written in an editor;
    /// a buffer that is left blank adds nothing.
    pub fn add(self, name: String) -> (r: (State, Action))
        ensures
            shown(r) == self@.add(name@),
    {
        match self.split() {
            Ok(store) => if name.as_str().is_empty() {
                store.fail(StoreError::EmptyName)
            } else {
                store.list_storage(Phase::AddListing { name })
            },
            Err(store) => store.fail(StoreError::Unexpected),
        }
    }

    /// Starts to list the tasks.
    pub fn list(self) -> (r: (State, Action))
        ensures
            shown(r) == self@.list(),
    {
        match self.split() {
            Ok(store) => store.list_storage(Phase::ListListing),
            Err(store) => store.fail(StoreError::Unexpected),
        }
    }

    /// Starts to run the task `name`, or one that the user picks.
    pub fn run(self, name: Option<String>) -> (r: (State, Action))
        ensures
            shown(r) == self@.run(text_of(name)),
    {
        match self.split() {
            Ok(store) => store.begin_pick(Verb::Run, name),
            Err(store) => store.fail(StoreError::Unexpected),
        }
    }

    /// Starts to edit the task `name`, or one that the user picks.
    pub fn edit(self, name: Option<String>) -> (r: (State, Action))
        ensures
            shown(r) == self@.edit(text_of(name)),
    {
        match self.split() {
            Ok(store) => store.begin_pick(Verb::Edit, name),
            Err(store) => store.fail(StoreError::Unexpected),
        }
    }

    /// Starts to delete the task `name`, or one that the user picks. The
    /// user is asked before the file is removed.
    pub fn delete(self, name: Option<String>) -> (r: (State, Action))
        ensures
            shown(r) == self@.delete(text_of(name)),
    {
        match self.split() {
            Ok(store) => store.begin_pick(Verb::Delete, name),
            Err(store) => store.fail(StoreError::Unexpected),
        }
    }

    /// Starts to rename the task `current_name` to `new_name`.
    pub fn rename(self, current_name: String, new_name: String) -> (r: (State, Action))
        ensures
            shown(r) == self@.rename(current_name@, new_name@),
    {
        match self.split() {
            Ok(store) => store.begin_rename(current_name, new_name),
            Err(store) => store.fail(StoreError::Unexpected),
        }
    }

    /// Takes `event`, the answer to the action that was handed out last, and
    /// hands out the next.
    pub fn step(self, event: Event) -> (r: (State, Action))
        ensures
            shown(r) == self@.step(event@),
    {
        let State { store, phase } = self;
        match phase {
            Phase::Idle | Phase::Finished => store.fail(StoreError::Unexpected),
            Phase::AddListing { name } => store.after_add_listing(name, event),
            Phase::AddScratch { name } => store.after_add_scratch(name, event),
            Phase::AddEditing { name, scratch } => store.after_add_editing(name, scratch, event),
            Phase::AddReading { name, scratch } => store.after_add_reading(name, scratch, event),
            Phase::AddCleaning { name, buffer } => store.after_add_cleaning(name, buffer, event),
            Phase::ListListing => store.after_list_listing(event),
            Phase::PickListing { verb } => store.after_pick_listing(verb, event),
            Phase::ProbeFinder { verb } => store.after_probe_finder(verb, event),
            Phase::ProbeViewer { verb } => store.after_probe_viewer(verb, event),
            Phase::Finding { verb } => store.after_finding(verb, event),
            Phase::Prompting { verb } => store.after_prompting(verb, event),
            Phase::Checking { verb, name } => store.after_checking(verb, name, event),
            Phase::Executing { verb } => store.after_executing(verb, event),
            Phase::Confirming { name } => store.after_confirming(name, event),
            Phase::RenameListing { current, new } => store.after_rename_listing(
                current,
                new,
                event,
            ),
            Phase::RenameCheckingCurrent { current, new } => store.after_rename_checking_current(
                current,
                new,
                event,
            ),
            Phase::RenameCheckingNew { current, new } => store.after_rename_checking_new(
                current,
                new,
                event,
            ),
            Phase::Closing { failure } => store.after_closing(failure, event),
        }
    }
}

} // verus!
