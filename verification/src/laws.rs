//! What holds of every run of the store, whatever its caller reports.
//!
//! A run is an operation's first action and the events that answer it and
//! its successors. The files are a map from paths to contents, and the
//! store's actions are read as changes to that map.

use vstd::prelude::*;
use crate::fzf::{available, CANCELLED};
use crate::model::{
    agrees, header_of, hint_of, task_names, PhaseView, StateView, StoreView, Verb,
};
use crate::protocol::{ActionView, EntryView, EventView, StoreError};
use crate::path::{
    file_name_of, is_task_file, lemma_file_name_injective, lemma_task_file_round_trip, task_of,
};
use crate::text::{
    blank, lemma_trimmed_empty_iff_blank, lemma_trimmed_ignores_tail, lemma_trimmed_of_tight,
    trimmed,
};

verus! {

/// Where the operation stands once `e` has answered the action of `at`. The
/// end of an operation asks for nothing, so nothing answers it.
pub open spec fn next(at: (StateView, ActionView), e: EventView) -> (StateView, ActionView) {
    if at.1 is Finish {
        at
    } else {
        at.0.step(e)
    }
}

/// Where the operation that began with `start` stands after `events`.
pub open spec fn after(start: (StateView, ActionView), events: Seq<EventView>) -> (
    StateView,
    ActionView,
)
    decreases events.len(),
{
    if events.len() == 0 {
        start
    } else {
        next(after(start, events.drop_last()), events.last())
    }
}

/// The actions that the operation asks for in the course of `events`: the
/// one it began with, then the one after each event.
pub open spec fn actions(start: (StateView, ActionView), events: Seq<EventView>) -> Seq<
    ActionView,
> {
    Seq::new(events.len() + 1, |i: int| after(start, events.take(i)).1)
}

/// The files, by path, after `action` has been performed on `files`. Only
/// three actions change a file: writing one, removing one and renaming one.
pub open spec fn files_after(action: ActionView, files: Map<Seq<char>, Seq<char>>) -> Map<
    Seq<char>,
    Seq<char>,
> {
    match action {
        ActionView::WriteFile { path, contents } => files.insert(path, contents),
        ActionView::RemoveFile { path } => files.remove(path),
        ActionView::RenameFile { from, to } => if files.contains_key(from) {
            files.remove(from).insert(to, files[from])
        } else {
            files
        },
        _ => files,
    }
}

/// The files after every action that `events` answer has been performed,
/// beginning with `files`.
pub open spec fn files_when(
    start: (StateView, ActionView),
    events: Seq<EventView>,
    files: Map<Seq<char>, Seq<char>>,
) -> Map<Seq<char>, Seq<char>>
    decreases events.len(),
{
    if events.len() == 0 {
        files
    } else {
        files_after(
            after(start, events.drop_last()).1,
            files_when(start, events.drop_last(), files),
        )
    }
}

/// Whether `action` leaves every file as it is.
pub open spec fn harmless(action: ActionView) -> bool {
    !(action is WriteFile || action is RemoveFile || action is RenameFile)
}

/// Whether `action` has the user pick a task.
pub open spec fn selects(action: ActionView) -> bool {
    action is Choose || action is Pipe
}

/// One more event moves the operation on by one step, has the action that
/// it answers performed on the files, and adds the next action to those
/// asked for.
pub proof fn lemma_one_more(
    start: (StateView, ActionView),
    events: Seq<EventView>,
    e: EventView,
    files: Map<Seq<char>, Seq<char>>,
)
    ensures
        after(start, events.push(e)) == next(after(start, events), e),
        files_when(start, events.push(e), files) == files_after(
            after(start, events).1,
            files_when(start, events, files),
        ),
        actions(start, events.push(e)) == actions(start, events).push(
            after(start, events.push(e)).1,
        ),
{
    let longer = events.push(e);
    assert(longer.drop_last() =~= events);
    assert forall|i: int| 0 <= i <= events.len() implies #[trigger] longer.take(i)
        == events.take(i) by {
        assert(longer.take(i) =~= events.take(i));
    }
    assert(longer.take(longer.len() as int) =~= longer);
    assert(actions(start, longer) =~= actions(start, events).push(after(start, longer).1));
}

/// Before any event the operation stands where it began.
pub proof fn lemma_no_event(start: (StateView, ActionView), files: Map<Seq<char>, Seq<char>>)
    ensures
        after(start, Seq::empty()) == start,
        files_when(start, Seq::empty(), files) == files,
        actions(start, Seq::empty()) == seq![start.1],
{
    let none = Seq::<EventView>::empty();
    assert(none.take(0) =~= none);
    assert(actions(start, none) =~= seq![start.1]);
}

/// A harmless action changes no file.
pub proof fn law_harmless_changes_nothing(action: ActionView, files: Map<Seq<char>, Seq<char>>)
    requires
        harmless(action),
    ensures
        files_after(action, files) == files,
{
}

/// An operation that is over stays over: whatever is reported to it, it
/// answers with the end of an operation, and asks for nothing to be done.
pub proof fn law_finished_is_final(s: StateView, e: EventView)
    requires
        s.phase is Finished,
    ensures
        s.step(e) == (s, ActionView::Finish(Err(StoreError::Unexpected))),
{
}

/// Adding a task under a name that is taken fails, and changes no file: the
/// store asks for the directory to be listed, and then ends the operation
/// with `AlreadyExists`. (The empty name, which no task has, is refused
/// before that: see `law_empty_name`.)
pub proof fn law_add_existing_name(
    s: StateView,
    name: Seq<char>,
    list: Seq<EntryView>,
    files: Map<Seq<char>, Seq<char>>,
)
    requires
        s.idle(),
        name.len() > 0,
        s.store.seeing(list).tasks.contains(name),
    ensures
        actions(s.add(name), seq![EventView::Entries(list)]) == seq![
            ActionView::ReadStorage { dir: s.store.storage },
            ActionView::Finish(Err(StoreError::AlreadyExists)),
        ],
        files_when(s.add(name), seq![EventView::Entries(list)], files) == files,
{
    let start = s.add(name);
    let e0 = Seq::<EventView>::empty();
    lemma_no_event(start, files);
    lemma_one_more(start, e0, EventView::Entries(list), files);
    let e1 = e0.push(EventView::Entries(list));
    assert(e1 =~= seq![EventView::Entries(list)]);
    assert(actions(start, e1) =~= seq![
        ActionView::ReadStorage { dir: s.store.storage },
        ActionView::Finish(Err(StoreError::AlreadyExists)),
    ]);
}

/// Adding a task creates no file where the editor leaves the buffer blank.
/// The scratch file, which did not exist before, is created for the editor
/// and removed again; no other file is touched, and the operation succeeds.
pub proof fn law_add_blank_buffer(
    s: StateView,
    name: Seq<char>,
    list: Seq<EntryView>,
    scratch: Seq<char>,
    buffer: Seq<char>,
    files: Map<Seq<char>, Seq<char>>,
)
    requires
        s.idle(),
        name.len() > 0,
        !s.store.seeing(list).tasks.contains(name),
        !files.contains_key(scratch),
        blank(buffer),
    ensures
        ({
            let events = seq![
                EventView::Entries(list),
                EventView::Scratch(scratch),
                EventView::Exited(Some(0i32)),
                EventView::Contents(buffer),
                EventView::Done,
            ];
            &&& actions(s.add(name), events) == seq![
                ActionView::ReadStorage { dir: s.store.storage },
                ActionView::CreateScratch,
                ActionView::Launch { program: s.store.editor, args: seq![scratch], quiet: false },
                ActionView::ReadFile { path: scratch },
                ActionView::RemoveFile { path: scratch },
                ActionView::Finish(Ok(())),
            ]
            &&& files_when(s.add(name), events, files) == files
        }),
{
    let start = s.add(name);
    let e0 = Seq::<EventView>::empty();
    let e1 = e0.push(EventView::Entries(list));
    let e2 = e1.push(EventView::Scratch(scratch));
    let e3 = e2.push(EventView::Exited(Some(0i32)));
    let e4 = e3.push(EventView::Contents(buffer));
    let e5 = e4.push(EventView::Done);
    lemma_no_event(start, files);
    lemma_one_more(start, e0, EventView::Entries(list), files);
    lemma_one_more(start, e1, EventView::Scratch(scratch), files);
    lemma_one_more(start, e2, EventView::Exited(Some(0i32)), files);
    lemma_one_more(start, e3, EventView::Contents(buffer), files);
    lemma_one_more(start, e4, EventView::Done, files);
    assert(files.remove(scratch) =~= files);
    assert(e5 =~= seq![
        EventView::Entries(list),
        EventView::Scratch(scratch),
        EventView::Exited(Some(0i32)),
        EventView::Contents(buffer),
        EventView::Done,
    ]);
    assert(actions(start, e5) =~= seq![
        ActionView::ReadStorage { dir: s.store.storage },
        ActionView::CreateScratch,
        ActionView::Launch { program: s.store.editor, args: seq![scratch], quiet: false },
        ActionView::ReadFile { path: scratch },
        ActionView::RemoveFile { path: scratch },
        ActionView::Finish(Ok(())),
    ]);
}

/// Adding a task whose buffer is not blank writes the buffer, as it is, to
/// the task's file, and touches no other file but the scratch file.
pub proof fn law_add_writes_buffer(
    s: StateView,
    name: Seq<char>,
    list: Seq<EntryView>,
    scratch: Seq<char>,
    buffer: Seq<char>,
    files: Map<Seq<char>, Seq<char>>,
)
    requires
        s.idle(),
        name.len() > 0,
        !s.store.seeing(list).tasks.contains(name),
        !files.contains_key(scratch),
        !blank(buffer),
    ensures
        ({
            let events = seq![
                EventView::Entries(list),
                EventView::Scratch(scratch),
                EventView::Exited(Some(0i32)),
                EventView::Contents(buffer),
                EventView::Done,
                EventView::Done,
            ];
            &&& after(s.add(name), events).1 == ActionView::Finish(Ok(()))
            &&& files_when(s.add(name), events, files) == files.insert(
                s.store.file_path(name),
                buffer,
            )
        }),
{
    let start = s.add(name);
    let e0 = Seq::<EventView>::empty();
    let e1 = e0.push(EventView::Entries(list));
    let e2 = e1.push(EventView::Scratch(scratch));
    let e3 = e2.push(EventView::Exited(Some(0i32)));
    let e4 = e3.push(EventView::Contents(buffer));
    let e5 = e4.push(EventView::Done);
    let e6 = e5.push(EventView::Done);
    lemma_no_event(start, files);
    lemma_one_more(start, e0, EventView::Entries(list), files);
    lemma_one_more(start, e1, EventView::Scratch(scratch), files);
    lemma_one_more(start, e2, EventView::Exited(Some(0i32)), files);
    lemma_one_more(start, e3, EventView::Contents(buffer), files);
    lemma_one_more(start, e4, EventView::Done, files);
    lemma_one_more(start, e5, EventView::Done, files);
    assert(files.remove(scratch) =~= files);
    assert(e6 =~= seq![
        EventView::Entries(list),
        EventView::Scratch(scratch),
        EventView::Exited(Some(0i32)),
        EventView::Contents(buffer),
        EventView::Done,
        EventView::Done,
    ]);
}

/// Adding a task fails where the editor does not end with success, and then
/// changes no file.
pub proof fn law_add_editor_failure(
    s: StateView,
    name: Seq<char>,
    list: Seq<EntryView>,
    scratch: Seq<char>,
    code: Option<i32>,
    files: Map<Seq<char>, Seq<char>>,
)
    requires
        s.idle(),
        name.len() > 0,
        !s.store.seeing(list).tasks.contains(name),
        code != Some(0i32),
    ensures
        ({
            let events = seq![
                EventView::Entries(list),
                EventView::Scratch(scratch),
                EventView::Exited(code),
            ];
            &&& after(s.add(name), events).1 == ActionView::Finish(
                Err(StoreError::EditorFailed),
            )
            &&& files_when(s.add(name), events, files) == files
        }),
{
    let start = s.add(name);
    let e0 = Seq::<EventView>::empty();
    let e1 = e0.push(EventView::Entries(list));
    let e2 = e1.push(EventView::Scratch(scratch));
    let e3 = e2.push(EventView::Exited(code));
    lemma_no_event(start, files);
    lemma_one_more(start, e0, EventView::Entries(list), files);
    lemma_one_more(start, e1, EventView::Scratch(scratch), files);
    lemma_one_more(start, e2, EventView::Exited(code), files);
    assert(e3 =~= seq![
        EventView::Entries(list),
        EventView::Scratch(scratch),
        EventView::Exited(code),
    ]);
}

/// How a renaming ends, given what the directory lists and which files
/// there are: with `EmptyName` where the new name is empty; else with
/// `SameName` where the two names are one; else with `AlreadyExists` where a
/// task of the new name is listed; else with `NotFound` where the current
/// name is empty or the current task has no file; else with `AlreadyExists` where the new task's file is
/// there; and else with success.
pub open spec fn renaming(
    s: StateView,
    current: Seq<char>,
    new: Seq<char>,
    list: Seq<EntryView>,
    files: Map<Seq<char>, Seq<char>>,
) -> Result<(), StoreError> {
    if new.len() == 0 {
        Err(StoreError::EmptyName)
    } else if current == new {
        Err(StoreError::SameName)
    } else if s.store.seeing(list).tasks.contains(new) {
        Err(StoreError::AlreadyExists)
    } else if current.len() == 0 || !files.contains_key(s.store.file_path(current)) {
        Err(StoreError::NotFound)
    } else if files.contains_key(s.store.file_path(new)) {
        Err(StoreError::AlreadyExists)
    } else {
        Ok(())
    }
}

/// Renaming a task ends as `renaming` says. Where it fails, no file has
/// changed. Where it succeeds, the current task's file is gone, the new
/// task's file holds what that one held, and every other file is as it was.
pub proof fn law_rename(
    s: StateView,
    current: Seq<char>,
    new: Seq<char>,
    list: Seq<EntryView>,
    files: Map<Seq<char>, Seq<char>>,
)
    requires
        s.idle(),
    ensures
        ({
            let from = s.store.file_path(current);
            let to = s.store.file_path(new);
            let events = seq![
                EventView::Entries(list),
                EventView::Exists(files.contains_key(from)),
                EventView::Exists(files.contains_key(to)),
                EventView::Done,
            ];
            let result = renaming(s, current, new, list, files);
            let then = files_when(s.rename(current, new), events, files);
            &&& after(s.rename(current, new), events).1 == ActionView::Finish(result)
            &&& result is Err ==> then == files
            &&& result is Ok ==> {
                &&& !then.contains_key(from)
                &&& then.contains_key(to)
                &&& then[to] == files[from]
                &&& forall|path: Seq<char>|
                    path != from && path != to ==> (then.contains_key(path)
                        <==> files.contains_key(path)) && then[path] == files[path]
            }
        }),
{
    let start = s.rename(current, new);
    let from = s.store.file_path(current);
    let to = s.store.file_path(new);
    let e0 = Seq::<EventView>::empty();
    let e1 = e0.push(EventView::Entries(list));
    let e2 = e1.push(EventView::Exists(files.contains_key(from)));
    let e3 = e2.push(EventView::Exists(files.contains_key(to)));
    let e4 = e3.push(EventView::Done);
    lemma_no_event(start, files);
    lemma_one_more(start, e0, EventView::Entries(list), files);
    lemma_one_more(start, e1, EventView::Exists(files.contains_key(from)), files);
    lemma_one_more(start, e2, EventView::Exists(files.contains_key(to)), files);
    lemma_one_more(start, e3, EventView::Done, files);
    assert(e4 =~= seq![
        EventView::Entries(list),
        EventView::Exists(files.contains_key(from)),
        EventView::Exists(files.contains_key(to)),
        EventView::Done,
    ]);
}

/// Deleting a task by name fails with `NotFound` where the name is empty or
/// the task has no file. Else the user is asked, and the operation succeeds whatever the
/// answer: an answer that agrees has the file removed and no other file
/// touched; any other answer leaves every file as it is.
pub proof fn law_delete(
    s: StateView,
    name: Seq<char>,
    answer: Seq<char>,
    files: Map<Seq<char>, Seq<char>>,
)
    requires
        s.idle(),
    ensures
        ({
            let path = s.store.file_path(name);
            let events = seq![
                EventView::Exists(files.contains_key(path)),
                EventView::Line(answer),
                EventView::Done,
            ];
            let end = after(s.delete(Some(name)), events).1;
            let then = files_when(s.delete(Some(name)), events, files);
            let there = name.len() > 0 && files.contains_key(path);
            &&& !there ==> end == ActionView::Finish(Err(StoreError::NotFound)) && then == files
            &&& there ==> end == ActionView::Finish(Ok(()))
            &&& there && agrees(answer) ==> then == files.remove(path)
            &&& there && !agrees(answer) ==> then == files
        }),
{
    let start = s.delete(Some(name));
    let path = s.store.file_path(name);
    let e0 = Seq::<EventView>::empty();
    let e1 = e0.push(EventView::Exists(files.contains_key(path)));
    let e2 = e1.push(EventView::Line(answer));
    let e3 = e2.push(EventView::Done);
    lemma_no_event(start, files);
    lemma_one_more(start, e0, EventView::Exists(files.contains_key(path)), files);
    lemma_one_more(start, e1, EventView::Line(answer), files);
    lemma_one_more(start, e2, EventView::Done, files);
    assert(e3 =~= seq![
        EventView::Exists(files.contains_key(path)),
        EventView::Line(answer),
        EventView::Done,
    ]);
}

/// Listing the tasks prints them, or the hint where there is none, and
/// succeeds. Nothing is selected on the way and no file changes.
pub proof fn law_list(s: StateView, list: Seq<EntryView>, files: Map<Seq<char>, Seq<char>>)
    requires
        s.idle(),
    ensures
        ({
            let events = seq![EventView::Entries(list), EventView::Done];
            let tasks = s.store.seeing(list).tasks;
            let asked = actions(s.list(), events);
            &&& asked == seq![
                ActionView::ReadStorage { dir: s.store.storage },
                ActionView::Print {
                    lines: if tasks.len() == 0 {
                        hint_of(true)
                    } else {
                        tasks
                    },
                },
                ActionView::Finish(Ok(())),
            ]
            &&& forall|i: int| 0 <= i < asked.len() ==> !selects(#[trigger] asked[i])
            &&& files_when(s.list(), events, files) == files
        }),
{
    let start = s.list();
    let e0 = Seq::<EventView>::empty();
    let e1 = e0.push(EventView::Entries(list));
    let e2 = e1.push(EventView::Done);
    lemma_no_event(start, files);
    lemma_one_more(start, e0, EventView::Entries(list), files);
    lemma_one_more(start, e1, EventView::Done, files);
    assert(e2 =~= seq![EventView::Entries(list), EventView::Done]);
    let tasks = s.store.seeing(list).tasks;
    assert(actions(start, e2) =~= seq![
        ActionView::ReadStorage { dir: s.store.storage },
        ActionView::Print {
            lines: if tasks.len() == 0 {
                hint_of(true)
            } else {
                tasks
            },
        },
        ActionView::Finish(Ok(())),
    ]);
}

/// Running a task by its name, which is not empty, fails with `NotFound`
/// where the task has no file.
/// Else the file is handed to the shell, and the operation succeeds exactly
/// where the shell ends with the exit code zero. The store itself changes no
/// file on the way.
pub proof fn law_run(
    s: StateView,
    name: Seq<char>,
    code: Option<i32>,
    files: Map<Seq<char>, Seq<char>>,
)
    requires
        s.idle(),
        name.len() > 0,
    ensures
        ({
            let path = s.store.file_path(name);
            let events = seq![EventView::Exists(files.contains_key(path)), EventView::Exited(code)];
            let asked = actions(s.run(Some(name)), events);
            &&& asked[0] == ActionView::Exists { path }
            &&& !files.contains_key(path) ==> asked[1] == ActionView::Finish(
                Err(StoreError::NotFound),
            )
            &&& files.contains_key(path) ==> asked[1] == ActionView::Launch {
                program: "sh"@,
                args: seq![path],
                quiet: false,
            }
            &&& files.contains_key(path) ==> asked[2] == ActionView::Finish(
                if code == Some(0i32) {
                    Ok(())
                } else {
                    Err(StoreError::CommandFailed)
                },
            )
            &&& files_when(s.run(Some(name)), events, files) == files
        }),
{
    let start = s.run(Some(name));
    let path = s.store.file_path(name);
    let e0 = Seq::<EventView>::empty();
    let e1 = e0.push(EventView::Exists(files.contains_key(path)));
    let e2 = e1.push(EventView::Exited(code));
    lemma_no_event(start, files);
    lemma_one_more(start, e0, EventView::Exists(files.contains_key(path)), files);
    lemma_one_more(start, e1, EventView::Exited(code), files);
    assert(e2 =~= seq![EventView::Exists(files.contains_key(path)), EventView::Exited(code)]);
}

/// The operation on a task that the user is to pick, or on the task `name`.
pub open spec fn picking(s: StateView, verb: Verb, name: Option<Seq<char>>) -> (
    StateView,
    ActionView,
) {
    match verb {
        Verb::Run => s.run(name),
        Verb::Edit => s.edit(name),
        Verb::Delete => s.delete(name),
    }
}

/// A selection that the user cancels in the fuzzy finder is no error: where
/// the finder ends with the exit code 130, whatever it wrote, the operation
/// ends with success, and no file has changed.
pub proof fn law_cancelled_selection(
    s: StateView,
    verb: Verb,
    list: Seq<EntryView>,
    found: EventView,
    viewer: EventView,
    stdout: Option<Seq<char>>,
    files: Map<Seq<char>, Seq<char>>,
)
    requires
        s.idle(),
        s.store.seeing(list).tasks.len() > 0,
        available(found),
        viewer is Exited || viewer is Failed,
    ensures
        ({
            let events = seq![
                EventView::Entries(list),
                found,
                viewer,
                EventView::Output { code: Some(CANCELLED), stdout },
            ];
            &&& after(picking(s, verb, None), events).1 == ActionView::Finish(Ok(()))
            &&& files_when(picking(s, verb, None), events, files) == files
        }),
{
    let start = picking(s, verb, None);
    let last = EventView::Output { code: Some(CANCELLED), stdout };
    let e0 = Seq::<EventView>::empty();
    let e1 = e0.push(EventView::Entries(list));
    let e2 = e1.push(found);
    let e3 = e2.push(viewer);
    let e4 = e3.push(last);
    lemma_no_event(start, files);
    lemma_one_more(start, e0, EventView::Entries(list), files);
    lemma_one_more(start, e1, found, files);
    lemma_one_more(start, e2, viewer, files);
    lemma_one_more(start, e3, last, files);
    assert(e4 =~= seq![EventView::Entries(list), found, viewer, last]);
}

/// Without the fuzzy finder the user picks from a plain list of the tasks,
/// and a user who picks none ends the operation with success, no file
/// changed. A task that is picked is treated as one that was named.
pub proof fn law_prompt(
    s: StateView,
    verb: Verb,
    list: Seq<EntryView>,
    found: EventView,
    choice: Option<usize>,
    files: Map<Seq<char>, Seq<char>>,
)
    requires
        s.idle(),
        s.store.seeing(list).tasks.len() > 0,
        found is Exited || found is Failed,
        !available(found),
        choice is Some ==> choice->0 < s.store.seeing(list).tasks.len(),
    ensures
        ({
            let events = seq![EventView::Entries(list), found, EventView::Chosen(choice)];
            let seen = s.store.seeing(list);
            let asked = actions(picking(s, verb, None), events);
            &&& asked[2] == ActionView::Choose { prompt: header_of(verb), items: seen.tasks }
            &&& choice is None ==> asked[3] == ActionView::Finish(Ok(()))
            &&& choice is Some ==> after(picking(s, verb, None), events) == seen.resolve(
                verb,
                seen.tasks[choice->0 as int],
            )
            &&& files_when(picking(s, verb, None), events, files) == files
        }),
{
    let start = picking(s, verb, None);
    let e0 = Seq::<EventView>::empty();
    let e1 = e0.push(EventView::Entries(list));
    let e2 = e1.push(found);
    let e3 = e2.push(EventView::Chosen(choice));
    lemma_no_event(start, files);
    lemma_one_more(start, e0, EventView::Entries(list), files);
    lemma_one_more(start, e1, found, files);
    lemma_one_more(start, e2, EventView::Chosen(choice), files);
    assert(e3 =~= seq![EventView::Entries(list), found, EventView::Chosen(choice)]);
}

/// The answers `y` and `Y` agree to a deletion, with or without the line
/// feed that ends a typed line; `n` and the empty answer do not.
pub proof fn law_answers()
    ensures
        agrees("y"@),
        agrees("Y"@),
        agrees("y\n"@),
        agrees("Y\n"@),
        !agrees("n"@),
        !agrees("n\n"@),
        !agrees(""@),
        !agrees("\n"@),
{
    reveal_strlit("y");
    reveal_strlit("Y");
    reveal_strlit("n");
    reveal_strlit("");
    reveal_strlit("y\n");
    reveal_strlit("Y\n");
    reveal_strlit("n\n");
    reveal_strlit("\n");
    lemma_trimmed_of_tight("y"@);
    lemma_trimmed_of_tight("Y"@);
    lemma_trimmed_of_tight("n"@);
    assert("y\n"@ =~= "y"@.push('\n'));
    assert("Y\n"@ =~= "Y"@.push('\n'));
    assert("n\n"@ =~= "n"@.push('\n'));
    lemma_trimmed_ignores_tail("y"@, '\n');
    lemma_trimmed_ignores_tail("Y"@, '\n');
    lemma_trimmed_ignores_tail("n"@, '\n');
    assert("n"@[0] != "y"@[0]);
    assert("n"@[0] != "Y"@[0]);
    assert(trimmed(""@).len() == 0);
    lemma_trimmed_empty_iff_blank("\n"@);
    assert(trimmed("\n"@).len() == 0);
}

/// A task has a file of its own: two tasks whose names do not begin with `/`
/// have the same file only if they have the same name.
pub proof fn law_one_file_per_task(store: StoreView, a: Seq<char>, b: Seq<char>)
    requires
        a.len() == 0 || a[0] != '/',
        b.len() == 0 || b[0] != '/',
        store.file_path(a) == store.file_path(b),
    ensures
        a == b,
{
    reveal_strlit(".sh");
    reveal_strlit("/");
    let fa = file_name_of(a);
    let fb = file_name_of(b);
    assert(fa[0] != '/');
    assert(fb[0] != '/');
    let base = if store.storage.len() > 0 && store.storage.last() != '/' {
        store.storage + "/"@
    } else {
        store.storage
    };
    assert(store.file_path(a) == base + fa);
    assert(store.file_path(b) == base + fb);
    assert(fa =~= (base + fa).subrange(base.len() as int, (base + fa).len() as int));
    assert(fb =~= (base + fb).subrange(base.len() as int, (base + fb).len() as int));
    lemma_file_name_injective(a, b);
}

/// Where a listing can stand: it waits for the directory, or for its lines
/// to be printed, or it is over.
pub open spec fn listing(at: (StateView, ActionView)) -> bool {
    ||| at.0.phase is ListListing && at.1 is ReadStorage
    ||| at.0.phase is Closing && at.1 is Print
    ||| at.1 is Finish
}

/// A listing stands, after any events, where a listing can stand.
pub proof fn lemma_listing(s: StateView, events: Seq<EventView>)
    requires
        s.idle(),
    ensures
        listing(after(s.list(), events)),
    decreases events.len(),
{
    if events.len() > 0 {
        lemma_listing(s, events.drop_last());
    }
}

/// Listing the tasks never has the user pick one and never changes a file,
/// whatever is reported to it and for however long.
pub proof fn law_list_only_reads(
    s: StateView,
    events: Seq<EventView>,
    files: Map<Seq<char>, Seq<char>>,
)
    requires
        s.idle(),
    ensures
        forall|i: int|
            0 <= i <= events.len() ==> !selects(#[trigger] actions(s.list(), events)[i])
                && harmless(actions(s.list(), events)[i]),
        files_when(s.list(), events, files) == files,
    decreases events.len(),
{
    assert forall|i: int| 0 <= i <= events.len() implies !selects(
        #[trigger] actions(s.list(), events)[i],
    ) && harmless(actions(s.list(), events)[i]) by {
        lemma_listing(s, events.take(i));
    }
    if events.len() > 0 {
        law_list_only_reads(s, events.drop_last(), files);
        lemma_listing(s, events.drop_last());
    }
}

/// Where the running or the editing of a task can stand: in a phase that is
/// not one of adding, listing, confirming or renaming, and not on the way to
/// a deletion, with an action that changes no file.
pub open spec fn gentle(at: (StateView, ActionView)) -> bool {
    &&& harmless(at.1)
    &&& match at.0.phase {
        PhaseView::PickListing { verb } => verb != Verb::Delete,
        PhaseView::ProbeFinder { verb } => verb != Verb::Delete,
        PhaseView::ProbeViewer { verb } => verb != Verb::Delete,
        PhaseView::Finding { verb } => verb != Verb::Delete,
        PhaseView::Prompting { verb } => verb != Verb::Delete,
        PhaseView::Checking { verb, name } => verb != Verb::Delete,
        PhaseView::Executing { verb } => verb != Verb::Delete,
        PhaseView::Closing { failure } => true,
        PhaseView::Finished => true,
        _ => false,
    }
}

/// One event keeps the running or the editing of a task where it can stand.
pub proof fn lemma_gentle_next(at: (StateView, ActionView), e: EventView)
    requires
        gentle(at),
    ensures
        gentle(next(at, e)),
{
    let store = at.0.store;
    if at.1 is Finish {
    } else {
        match at.0.phase {
            PhaseView::PickListing { verb } => {
                assert(gentle(store.after_pick_listing(verb, e)));
            },
            PhaseView::ProbeFinder { verb } => {
                assert(gentle(store.after_probe_finder(verb, e)));
            },
            PhaseView::ProbeViewer { verb } => {
                assert(gentle(store.after_probe_viewer(verb, e)));
            },
            PhaseView::Finding { verb } => {
                assert(gentle(store.after_finding(verb, e)));
            },
            PhaseView::Prompting { verb } => {
                assert(gentle(store.after_prompting(verb, e)));
            },
            PhaseView::Checking { verb, name } => {
                assert(gentle(store.after_checking(verb, name, e)));
            },
            PhaseView::Executing { verb } => {
                assert(gentle(store.after_executing(verb, e)));
            },
            PhaseView::Closing { failure } => {
                assert(gentle(store.after_closing(failure, e)));
            },
            PhaseView::Finished => {
                assert(gentle(store.finish(Err(StoreError::Unexpected))));
            },
            _ => {},
        }
    }
}

/// The running or the editing of a task stands, after any events, where it
/// can stand.
pub proof fn lemma_gentle(
    s: StateView,
    verb: Verb,
    name: Option<Seq<char>>,
    events: Seq<EventView>,
)
    requires
        s.idle(),
        verb != Verb::Delete,
    ensures
        gentle(after(picking(s, verb, name), events)),
    decreases events.len(),
{
    if events.len() > 0 {
        lemma_gentle(s, verb, name, events.drop_last());
        lemma_gentle_next(after(picking(s, verb, name), events.drop_last()), events.last());
    }
}

/// Running a task and editing one change no file by themselves, whatever is
/// reported to them and for however long: the store asks for no file to be
/// written, removed or renamed. What the task's script or the editor does
/// is their own.
pub proof fn law_run_and_edit_change_nothing(
    s: StateView,
    verb: Verb,
    name: Option<Seq<char>>,
    events: Seq<EventView>,
    files: Map<Seq<char>, Seq<char>>,
)
    requires
        s.idle(),
        verb != Verb::Delete,
    ensures
        forall|i: int|
            0 <= i <= events.len() ==> harmless(
                #[trigger] actions(picking(s, verb, name), events)[i],
            ),
        files_when(picking(s, verb, name), events, files) == files,
    decreases events.len(),
{
    assert forall|i: int| 0 <= i <= events.len() implies harmless(
        #[trigger] actions(picking(s, verb, name), events)[i],
    ) by {
        lemma_gentle(s, verb, name, events.take(i));
    }
    if events.len() > 0 {
        law_run_and_edit_change_nothing(s, verb, name, events.drop_last(), files);
        lemma_gentle(s, verb, name, events.drop_last());
    }
}

/// How many events an operation in `phase` can still take before it is
/// over, at most.
pub open spec fn events_left(phase: PhaseView) -> nat {
    match phase {
        PhaseView::Idle => 0,
        PhaseView::Finished => 0,
        PhaseView::Closing { failure } => 1,
        PhaseView::Executing { verb } => 1,
        PhaseView::Confirming { name } => 2,
        PhaseView::Checking { verb, name } => 3,
        PhaseView::Finding { verb } => 4,
        PhaseView::Prompting { verb } => 4,
        PhaseView::ProbeViewer { verb } => 5,
        PhaseView::ProbeFinder { verb } => 6,
        PhaseView::PickListing { verb } => 7,
        PhaseView::ListListing => 2,
        PhaseView::AddCleaning { name, buffer } => 2,
        PhaseView::AddReading { name, scratch } => 3,
        PhaseView::AddEditing { name, scratch } => 4,
        PhaseView::AddScratch { name } => 5,
        PhaseView::AddListing { name } => 6,
        PhaseView::RenameCheckingNew { current, new } => 2,
        PhaseView::RenameCheckingCurrent { current, new } => 3,
        PhaseView::RenameListing { current, new } => 4,
    }
}

/// Whether `at` is where an operation that has started can stand: it is
/// over exactly where its action is the end of an operation.
pub open spec fn under_way(at: (StateView, ActionView)) -> bool {
    &&& !(at.0.phase is Idle)
    &&& at.1 is Finish <==> at.0.phase is Finished
}

/// Whether `start` is the start of an operation on the store `s`.
pub open spec fn starts(s: StateView, start: (StateView, ActionView)) -> bool {
    ||| exists|name: Seq<char>| start == #[trigger] s.add(name)
    ||| start == s.list()
    ||| exists|verb: Verb, name: Option<Seq<char>>| start == #[trigger] picking(s, verb, name)
    ||| exists|current: Seq<char>, new: Seq<char>| start == #[trigger] s.rename(current, new)
}

/// One event brings an operation that is under way nearer to its end.
pub proof fn lemma_nearer(at: (StateView, ActionView), e: EventView)
    requires
        under_way(at),
        !(at.1 is Finish),
    ensures
        under_way(next(at, e)),
        events_left(next(at, e).0.phase) < events_left(at.0.phase),
{
    let store = at.0.store;
    match at.0.phase {
        PhaseView::AddListing { name } => {
            let to = store.after_add_listing(name, e);
            assert(under_way(to) && events_left(to.0.phase) < 6);
        },
        PhaseView::AddScratch { name } => {
            let to = store.after_add_scratch(name, e);
            assert(under_way(to) && events_left(to.0.phase) < 5);
        },
        PhaseView::AddEditing { name, scratch } => {
            let to = store.after_add_editing(name, scratch, e);
            assert(under_way(to) && events_left(to.0.phase) < 4);
        },
        PhaseView::AddReading { name, scratch } => {
            let to = store.after_add_reading(name, scratch, e);
            assert(under_way(to) && events_left(to.0.phase) < 3);
        },
        PhaseView::AddCleaning { name, buffer } => {
            let to = store.after_add_cleaning(name, buffer, e);
            assert(under_way(to) && events_left(to.0.phase) < 2);
        },
        PhaseView::ListListing => {
            let to = store.after_list_listing(e);
            assert(under_way(to) && events_left(to.0.phase) < 2);
        },
        PhaseView::PickListing { verb } => {
            let to = store.after_pick_listing(verb, e);
            assert(under_way(to) && events_left(to.0.phase) < 7);
        },
        PhaseView::ProbeFinder { verb } => {
            let to = store.after_probe_finder(verb, e);
            assert(under_way(to) && events_left(to.0.phase) < 6);
        },
        PhaseView::ProbeViewer { verb } => {
            let to = store.after_probe_viewer(verb, e);
            assert(under_way(to) && events_left(to.0.phase) < 5);
        },
        PhaseView::Finding { verb } => {
            let to = store.after_finding(verb, e);
            assert(under_way(to) && events_left(to.0.phase) < 4);
        },
        PhaseView::Prompting { verb } => {
            let to = store.after_prompting(verb, e);
            assert(under_way(to) && events_left(to.0.phase) < 4);
        },
        PhaseView::Checking { verb, name } => {
            let to = store.after_checking(verb, name, e);
            assert(under_way(to) && events_left(to.0.phase) < 3);
        },
        PhaseView::Executing { verb } => {
            let to = store.after_executing(verb, e);
            assert(under_way(to) && events_left(to.0.phase) < 1);
        },
        PhaseView::Confirming { name } => {
            let to = store.after_confirming(name, e);
            assert(under_way(to) && events_left(to.0.phase) < 2);
        },
        PhaseView::RenameListing { current, new } => {
            let to = store.after_rename_listing(current, new, e);
            assert(under_way(to) && events_left(to.0.phase) < 4);
        },
        PhaseView::RenameCheckingCurrent { current, new } => {
            let to = store.after_rename_checking_current(current, new, e);
            assert(under_way(to) && events_left(to.0.phase) < 3);
        },
        PhaseView::RenameCheckingNew { current, new } => {
            let to = store.after_rename_checking_new(current, new, e);
            assert(under_way(to) && events_left(to.0.phase) < 2);
        },
        PhaseView::Closing { failure } => {
            let to = store.after_closing(failure, e);
            assert(under_way(to) && events_left(to.0.phase) < 1);
        },
        _ => {},
    }
}

/// An operation that is under way is over, or has used up as many of the
/// events it had left as it has taken.
pub proof fn lemma_events_used(start: (StateView, ActionView), events: Seq<EventView>)
    requires
        under_way(start),
    ensures
        under_way(after(start, events)),
        after(start, events).1 is Finish || events_left(after(start, events).0.phase)
            + events.len() <= events_left(start.0.phase),
    decreases events.len(),
{
    if events.len() > 0 {
        let before = after(start, events.drop_last());
        lemma_events_used(start, events.drop_last());
        if !(before.1 is Finish) {
            lemma_nearer(before, events.last());
        }
    }
}

/// Every operation ends: whatever is reported to it, it is over after seven
/// events at the latest, and it stays over.
pub proof fn law_operations_end(
    s: StateView,
    start: (StateView, ActionView),
    events: Seq<EventView>,
)
    requires
        s.idle(),
        starts(s, start),
        events.len() >= 7,
    ensures
        after(start, events).1 is Finish,
        after(start, events).0.phase is Finished,
{
    assert(under_way(start) && events_left(start.0.phase) <= 7);
    lemma_events_used(start, events);
}

/// Where the renaming of `current` to `new` in `storage` can stand: in one
/// of its own phases, with an action that changes no file, or at its last
/// action, which is that very renaming.
pub open spec fn renaming_stands(
    at: (StateView, ActionView),
    storage: Seq<char>,
    current: Seq<char>,
    new: Seq<char>,
) -> bool {
    &&& at.0.store.storage == storage
    &&& match at.0.phase {
        PhaseView::RenameListing { current: c, new: n } => c == current && n == new && harmless(
            at.1,
        ),
        PhaseView::RenameCheckingCurrent { current: c, new: n } => c == current && n == new
            && harmless(at.1),
        PhaseView::RenameCheckingNew { current: c, new: n } => c == current && n == new
            && harmless(at.1),
        PhaseView::Closing { failure } => at.1 == ActionView::RenameFile {
            from: at.0.store.file_path(current),
            to: at.0.store.file_path(new),
        },
        PhaseView::Finished => at.1 is Finish,
        _ => false,
    }
}

/// One event keeps a renaming where it can stand.
pub proof fn lemma_renaming_next(
    at: (StateView, ActionView),
    storage: Seq<char>,
    current: Seq<char>,
    new: Seq<char>,
    e: EventView,
)
    requires
        renaming_stands(at, storage, current, new),
    ensures
        renaming_stands(next(at, e), storage, current, new),
{
    let store = at.0.store;
    match at.0.phase {
        PhaseView::RenameListing { current: c, new: n } => {
            assert(renaming_stands(store.after_rename_listing(c, n, e), storage, current, new));
        },
        PhaseView::RenameCheckingCurrent { current: c, new: n } => {
            assert(renaming_stands(
                store.after_rename_checking_current(c, n, e),
                storage,
                current,
                new,
            ));
        },
        PhaseView::RenameCheckingNew { current: c, new: n } => {
            assert(renaming_stands(
                store.after_rename_checking_new(c, n, e),
                storage,
                current,
                new,
            ));
        },
        PhaseView::Closing { failure } => {
            assert(renaming_stands(store.after_closing(failure, e), storage, current, new));
        },
        _ => {},
    }
}

/// A renaming stands, after any events, where a renaming can stand.
pub proof fn lemma_renaming(
    s: StateView,
    current: Seq<char>,
    new: Seq<char>,
    events: Seq<EventView>,
)
    requires
        s.idle(),
    ensures
        renaming_stands(after(s.rename(current, new), events), s.store.storage, current, new),
    decreases events.len(),
{
    if events.len() > 0 {
        lemma_renaming(s, current, new, events.drop_last());
        lemma_renaming_next(
            after(s.rename(current, new), events.drop_last()),
            s.store.storage,
            current,
            new,
            events.last(),
        );
    }
}

/// Renaming changes one file at most: whatever is reported to it, the only
/// change it ever asks for is the renaming of the current task's file to
/// the new task's.
pub proof fn law_rename_only_renames(
    s: StateView,
    current: Seq<char>,
    new: Seq<char>,
    events: Seq<EventView>,
)
    requires
        s.idle(),
    ensures
        forall|i: int|
            0 <= i <= events.len() ==> {
                let action = #[trigger] actions(s.rename(current, new), events)[i];
                harmless(action) || action == ActionView::RenameFile {
                    from: s.store.file_path(current),
                    to: s.store.file_path(new),
                }
            },
{
    assert forall|i: int| 0 <= i <= events.len() implies {
        let action = #[trigger] actions(s.rename(current, new), events)[i];
        harmless(action) || action == ActionView::RenameFile {
            from: s.store.file_path(current),
            to: s.store.file_path(new),
        }
    } by {
        lemma_renaming(s, current, new, events.take(i));
    }
}

/// Where the deleting of the task `name` in `storage` can stand: in one of
/// its own phases, with an action that changes no file, or at its last
/// action, which is the removal of the task's file.
pub open spec fn deleting_stands(at: (StateView, ActionView), storage: Seq<char>, name: Seq<char>)
    -> bool {
    &&& at.0.store.storage == storage
    &&& match at.0.phase {
        PhaseView::Checking { verb, name: n } => verb == Verb::Delete && n == name && harmless(
            at.1,
        ),
        PhaseView::Confirming { name: n } => n == name && harmless(at.1),
        PhaseView::Closing { failure } => at.1 == ActionView::RemoveFile {
            path: at.0.store.file_path(name),
        },
        PhaseView::Finished => at.1 is Finish,
        _ => false,
    }
}

/// One event keeps the deleting of a task where it can stand.
pub proof fn lemma_deleting_next(
    at: (StateView, ActionView),
    storage: Seq<char>,
    name: Seq<char>,
    e: EventView,
)
    requires
        deleting_stands(at, storage, name),
    ensures
        deleting_stands(next(at, e), storage, name),
{
    let store = at.0.store;
    match at.0.phase {
        PhaseView::Checking { verb, name: n } => {
            assert(deleting_stands(store.after_checking(verb, n, e), storage, name));
        },
        PhaseView::Confirming { name: n } => {
            assert(deleting_stands(store.after_confirming(n, e), storage, name));
        },
        PhaseView::Closing { failure } => {
            assert(deleting_stands(store.after_closing(failure, e), storage, name));
        },
        _ => {},
    }
}

/// The deleting of a task stands, after any events, where it can stand.
pub proof fn lemma_deleting(s: StateView, name: Seq<char>, events: Seq<EventView>)
    requires
        s.idle(),
    ensures
        deleting_stands(after(s.delete(Some(name)), events), s.store.storage, name),
    decreases events.len(),
{
    if events.len() > 0 {
        lemma_deleting(s, name, events.drop_last());
        lemma_deleting_next(
            after(s.delete(Some(name)), events.drop_last()),
            s.store.storage,
            name,
            events.last(),
        );
    }
}

/// Deleting a task by name changes one file at most: whatever is reported
/// to it, the only change it ever asks for is the removal of that task's
/// file.
pub proof fn law_delete_only_removes_the_task(
    s: StateView,
    name: Seq<char>,
    events: Seq<EventView>,
)
    requires
        s.idle(),
    ensures
        forall|i: int|
            0 <= i <= events.len() ==> {
                let action = #[trigger] actions(s.delete(Some(name)), events)[i];
                harmless(action) || action == ActionView::RemoveFile {
                    path: s.store.file_path(name),
                }
            },
{
    assert forall|i: int| 0 <= i <= events.len() implies {
        let action = #[trigger] actions(s.delete(Some(name)), events)[i];
        harmless(action) || action == ActionView::RemoveFile { path: s.store.file_path(name) }
    } by {
        lemma_deleting(s, name, events.take(i));
    }
}

/// Where the adding of the task `name` in `storage` can stand: in one of
/// its own phases, with an action that changes no file, or with the
/// removal of the scratch file, or at its last action, which writes
/// something that is not blank to the task's file.
pub open spec fn adding_stands(at: (StateView, ActionView), storage: Seq<char>, name: Seq<char>)
    -> bool {
    &&& at.0.store.storage == storage
    &&& match at.0.phase {
        PhaseView::AddListing { name: n } => n == name && harmless(at.1),
        PhaseView::AddScratch { name: n } => n == name && harmless(at.1),
        PhaseView::AddEditing { name: n, scratch } => n == name && harmless(at.1),
        PhaseView::AddReading { name: n, scratch } => n == name && harmless(at.1),
        PhaseView::AddCleaning { name: n, buffer } => n == name && at.1 is RemoveFile,
        PhaseView::Closing { failure } => at.1 is WriteFile && at.1->WriteFile_path
            == at.0.store.file_path(name) && !blank(at.1->WriteFile_contents),
        PhaseView::Finished => at.1 is Finish,
        _ => false,
    }
}

/// One event keeps the adding of a task where it can stand.
pub proof fn lemma_adding_next(
    at: (StateView, ActionView),
    storage: Seq<char>,
    name: Seq<char>,
    e: EventView,
)
    requires
        adding_stands(at, storage, name),
    ensures
        adding_stands(next(at, e), storage, name),
{
    let store = at.0.store;
    match at.0.phase {
        PhaseView::AddListing { name: n } => {
            assert(adding_stands(store.after_add_listing(n, e), storage, name));
        },
        PhaseView::AddScratch { name: n } => {
            assert(adding_stands(store.after_add_scratch(n, e), storage, name));
        },
        PhaseView::AddEditing { name: n, scratch } => {
            assert(adding_stands(store.after_add_editing(n, scratch, e), storage, name));
        },
        PhaseView::AddReading { name: n, scratch } => {
            assert(adding_stands(store.after_add_reading(n, scratch, e), storage, name));
        },
        PhaseView::AddCleaning { name: n, buffer } => {
            assert(adding_stands(store.after_add_cleaning(n, buffer, e), storage, name));
        },
        PhaseView::Closing { failure } => {
            assert(adding_stands(store.after_closing(failure, e), storage, name));
        },
        _ => {},
    }
}

/// The adding of a task stands, after any events, where it can stand.
pub proof fn lemma_adding(s: StateView, name: Seq<char>, events: Seq<EventView>)
    requires
        s.idle(),
    ensures
        adding_stands(after(s.add(name), events), s.store.storage, name),
    decreases events.len(),
{
    if events.len() > 0 {
        lemma_adding(s, name, events.drop_last());
        lemma_adding_next(
            after(s.add(name), events.drop_last()),
            s.store.storage,
            name,
            events.last(),
        );
    }
}

/// Adding a task writes one file at most: whatever is reported to it, the
/// only file it ever asks to be written is the task's own, with contents
/// that are not blank, and the only other change it asks for is the
/// removal of the scratch file.
pub proof fn law_add_only_writes_the_task(s: StateView, name: Seq<char>, events: Seq<EventView>)
    requires
        s.idle(),
    ensures
        forall|i: int|
            0 <= i <= events.len() ==> {
                let action = #[trigger] actions(s.add(name), events)[i];
                ||| harmless(action)
                ||| action is RemoveFile
                ||| action is WriteFile && action->WriteFile_path == s.store.file_path(name)
                    && !blank(action->WriteFile_contents)
            },
{
    assert forall|i: int| 0 <= i <= events.len() implies {
        let action = #[trigger] actions(s.add(name), events)[i];
        ||| harmless(action)
        ||| action is RemoveFile
        ||| action is WriteFile && action->WriteFile_path == s.store.file_path(name) && !blank(
            action->WriteFile_contents,
        )
    } by {
        lemma_adding(s, name, events.take(i));
    }
}

/// A task that has a file is listed: where the directory holds a regular
/// file named after a task whose name is not empty, that task is among the
/// tasks of the directory. So a task that was added is found again, and its
/// name is taken from then on.
pub proof fn law_task_with_file_is_listed(list: Seq<EntryView>, i: int, name: Seq<char>)
    requires
        0 <= i < list.len(),
        list[i].is_file,
        list[i].file_name == file_name_of(name),
        name.len() > 0,
    ensures
        task_names(list).contains(name),
    decreases list.len(),
{
    lemma_task_file_round_trip(name);
    let before = task_names(list.drop_last());
    if i == list.len() - 1 {
        assert(task_names(list) == before.push(name));
        assert(before.push(name)[before.len() as int] == name);
    } else {
        law_task_with_file_is_listed(list.drop_last(), i, name);
        let k = choose|k: int| 0 <= k < before.len() && before[k] == name;
        assert(task_names(list)[k] == name);
    }
}

/// An operation that is over before any event stays as it is, and changes
/// no file.
pub proof fn lemma_over_at_once(
    start: (StateView, ActionView),
    events: Seq<EventView>,
    files: Map<Seq<char>, Seq<char>>,
)
    requires
        start.1 is Finish,
    ensures
        after(start, events) == start,
        files_when(start, events, files) == files,
    decreases events.len(),
{
    if events.len() > 0 {
        lemma_over_at_once(start, events.drop_last(), files);
    }
}

/// No task has the empty name. Adding a task under it is refused with
/// `EmptyName`, as is renaming a task to it; running, editing and deleting
/// the task of that name end with `NotFound`. Each is over before anything
/// is asked of the caller, so that no file is looked at or changed.
pub proof fn law_empty_name(
    s: StateView,
    verb: Verb,
    current: Seq<char>,
    events: Seq<EventView>,
    files: Map<Seq<char>, Seq<char>>,
)
    requires
        s.idle(),
    ensures
        ({
            let none = Seq::<char>::empty();
            &&& after(s.add(none), events).1 == ActionView::Finish(Err(StoreError::EmptyName))
            &&& files_when(s.add(none), events, files) == files
            &&& after(s.rename(current, none), events).1 == ActionView::Finish(
                Err(StoreError::EmptyName),
            )
            &&& files_when(s.rename(current, none), events, files) == files
            &&& after(picking(s, verb, Some(none)), events).1 == ActionView::Finish(
                Err(StoreError::NotFound),
            )
            &&& files_when(picking(s, verb, Some(none)), events, files) == files
        }),
{
    let none = Seq::<char>::empty();
    lemma_over_at_once(s.add(none), events, files);
    lemma_over_at_once(s.rename(current, none), events, files);
    lemma_over_at_once(picking(s, verb, Some(none)), events, files);
}

/// The tasks of a directory have names: none of them is empty.
pub proof fn law_tasks_have_names(list: Seq<EntryView>)
    ensures
        forall|i: int| 0 <= i < task_names(list).len() ==> (#[trigger] task_names(list)[i]).len() > 0,
    decreases list.len(),
{
    if list.len() > 0 {
        law_tasks_have_names(list.drop_last());
        let before = task_names(list.drop_last());
        let entry = list.last();
        assert forall|i: int| 0 <= i < task_names(list).len() implies (#[trigger] task_names(
            list,
        )[i]).len() > 0 by {
            if i < before.len() {
                assert(task_names(list)[i] == before[i]);
            } else {
                assert(entry.is_file && is_task_file(entry.file_name));
                assert(task_names(list)[i] == task_of(entry.file_name));
            }
        }
    }
}

} // verus!
