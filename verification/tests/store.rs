use std::collections::BTreeMap;

use zerp::protocol::{Action, Entry, ErrorKind, Event, StoreError};
use zerp::state::State;

/// A world to run the store against: files by path, an editor that writes
/// `typed` into the file it is given and ends with `editor_code`, a shell
/// that ends with `shell_code`, and a user who types `answer`.
struct World {
    files: BTreeMap<String, String>,
    typed: String,
    editor_code: Option<i32>,
    shell_code: Option<i32>,
    answer: String,
    launched: Vec<(String, Vec<String>)>,
    printed: Vec<String>,
    asked: Vec<String>,
}

fn world(files: &[(&str, &str)]) -> World {
    World {
        files: files.iter().map(|(p, c)| (p.to_string(), c.to_string())).collect(),
        typed: String::new(),
        editor_code: Some(0),
        shell_code: Some(0),
        answer: String::new(),
        launched: Vec::new(),
        printed: Vec::new(),
        asked: Vec::new(),
    }
}

fn store() -> State {
    State::new("/store".to_string(), "vim".to_string())
}

fn listing(world: &World, dir: &str) -> Vec<Entry> {
    let prefix = format!("{}/", dir);
    world
        .files
        .keys()
        .filter(|p| p.starts_with(&prefix))
        .map(|p| Entry { file_name: p[prefix.len()..].to_string(), is_file: true })
        .collect()
}

fn perform(world: &mut World, action: Action) -> Event {
    match action {
        Action::ReadStorage { dir } => Event::Entries(listing(world, &dir)),
        Action::Exists { path } => Event::Exists(world.files.contains_key(&path)),
        Action::Launch { program, args, .. } => {
            world.launched.push((program.clone(), args.clone()));
            if program == "vim" {
                world.files.insert(args[0].clone(), world.typed.clone());
                Event::Exited(world.editor_code)
            } else if program == "sh" {
                Event::Exited(world.shell_code)
            } else {
                Event::Failed
            }
        }
        Action::Pipe { .. } => Event::Failed,
        Action::Choose { .. } => Event::Chosen(None),
        Action::Ask { prompt } => {
            world.asked.push(prompt);
            Event::Line(world.answer.clone())
        }
        Action::CreateScratch => {
            world.files.insert("/tmp/scratch".to_string(), String::new());
            Event::Scratch("/tmp/scratch".to_string())
        }
        Action::ReadFile { path } => match world.files.get(&path) {
            Some(text) => Event::Contents(text.clone()),
            None => Event::Failed,
        },
        Action::WriteFile { path, contents } => {
            world.files.insert(path, contents);
            Event::Done
        }
        Action::RemoveFile { path } => match world.files.remove(&path) {
            Some(_) => Event::Done,
            None => Event::Failed,
        },
        Action::RenameFile { from, to } => match world.files.remove(&from) {
            Some(text) => {
                world.files.insert(to, text);
                Event::Done
            }
            None => Event::Failed,
        },
        Action::Print { lines } => {
            world.printed.extend(lines);
            Event::Done
        }
        Action::Finish(_) => unreachable!(),
    }
}

fn drive(world: &mut World, start: (State, Action)) -> Result<(), StoreError> {
    let (mut state, mut action) = start;
    for _ in 0..32 {
        if let Action::Finish(result) = action {
            assert!(state.is_finished());
            return result;
        }
        let event = perform(world, action);
        let next = state.step(event);
        state = next.0;
        action = next.1;
    }
    panic!("the operation does not end");
}

#[test]
fn add_existing_name_fails_and_keeps_the_file() {
    let mut w = world(&[("/store/deploy.sh", "echo hi")]);
    w.typed = "echo other".to_string();
    let before = w.files.clone();
    let result = drive(&mut w, store().add("deploy".to_string()));
    assert_eq!(result, Err(StoreError::AlreadyExists));
    assert_eq!(w.files, before);
    assert!(w.launched.is_empty());
}

#[test]
fn add_existing_name_step_by_step() {
    let (state, action) = store().add("deploy".to_string());
    assert_eq!(action, Action::ReadStorage { dir: "/store".to_string() });
    let entries = vec![Entry { file_name: "deploy.sh".to_string(), is_file: true }];
    let (state, action) = state.step(Event::Entries(entries));
    assert_eq!(action, Action::Finish(Err(StoreError::AlreadyExists)));
    assert!(state.is_finished());
    assert_eq!(state.tasks(), &vec!["deploy".to_string()]);
}

#[test]
fn add_blank_buffer_creates_no_file() {
    for typed in ["", " ", " \n\t  \n", "\u{a0}\u{2003}\u{3000}"] {
        let mut w = world(&[("/store/deploy.sh", "echo hi")]);
        w.typed = typed.to_string();
        let before = w.files.clone();
        let result = drive(&mut w, store().add("build".to_string()));
        assert_eq!(result, Ok(()));
        assert_eq!(w.files, before);
        assert_eq!(w.launched, vec![("vim".to_string(), vec!["/tmp/scratch".to_string()])]);
    }
}

#[test]
fn add_writes_the_buffer_as_it_is() {
    let mut w = world(&[]);
    w.typed = "  echo build\n".to_string();
    let result = drive(&mut w, store().add("build".to_string()));
    assert_eq!(result, Ok(()));
    assert_eq!(w.files.len(), 1);
    assert_eq!(w.files.get("/store/build.sh"), Some(&"  echo build\n".to_string()));
}

#[test]
fn add_step_by_step() {
    let (state, action) = store().add("build".to_string());
    assert_eq!(action, Action::ReadStorage { dir: "/store".to_string() });
    let (state, action) = state.step(Event::Entries(vec![]));
    assert_eq!(action, Action::CreateScratch);
    let (state, action) = state.step(Event::Scratch("/tmp/x".to_string()));
    assert_eq!(
        action,
        Action::Launch {
            program: "vim".to_string(),
            args: vec!["/tmp/x".to_string()],
            quiet: false
        }
    );
    let (state, action) = state.step(Event::Exited(Some(0)));
    assert_eq!(action, Action::ReadFile { path: "/tmp/x".to_string() });
    let (state, action) = state.step(Event::Contents("ls\n".to_string()));
    assert_eq!(action, Action::RemoveFile { path: "/tmp/x".to_string() });
    let (state, action) = state.step(Event::Done);
    assert_eq!(
        action,
        Action::WriteFile { path: "/store/build.sh".to_string(), contents: "ls\n".to_string() }
    );
    assert!(!state.is_finished());
    let (state, action) = state.step(Event::Done);
    assert_eq!(action, Action::Finish(Ok(())));
    assert!(state.is_finished());
}

#[test]
fn add_fails_when_the_editor_fails() {
    for code in [Some(1), Some(130), None] {
        let mut w = world(&[]);
        w.typed = "echo build".to_string();
        w.editor_code = code;
        let result = drive(&mut w, store().add("build".to_string()));
        assert_eq!(result, Err(StoreError::EditorFailed));
        assert!(!w.files.contains_key("/store/build.sh"));
    }
}

#[test]
fn add_reports_each_failure() {
    let (state, _) = store().add("build".to_string());
    assert_eq!(state.step(Event::Failed).1, Action::Finish(Err(StoreError::ReadStorage)));

    let (state, _) = store().add("build".to_string());
    let (state, _) = state.step(Event::Entries(vec![]));
    assert_eq!(state.step(Event::Failed).1, Action::Finish(Err(StoreError::WriteScratch)));

    let (state, _) = store().add("build".to_string());
    let (state, _) = state.step(Event::Entries(vec![]));
    let (state, _) = state.step(Event::Scratch("/tmp/x".to_string()));
    assert_eq!(state.step(Event::Failed).1, Action::Finish(Err(StoreError::OpenEditor)));

    let (state, _) = store().add("build".to_string());
    let (state, _) = state.step(Event::Entries(vec![]));
    let (state, _) = state.step(Event::Scratch("/tmp/x".to_string()));
    let (state, _) = state.step(Event::Exited(Some(0)));
    assert_eq!(state.step(Event::Failed).1, Action::Finish(Err(StoreError::ReadScratch)));

    let (state, _) = store().add("build".to_string());
    let (state, _) = state.step(Event::Entries(vec![]));
    let (state, _) = state.step(Event::Scratch("/tmp/x".to_string()));
    let (state, _) = state.step(Event::Exited(Some(0)));
    let (state, _) = state.step(Event::Contents("ls".to_string()));
    assert_eq!(state.step(Event::Failed).1, Action::Finish(Err(StoreError::RemoveScratch)));

    let (state, _) = store().add("build".to_string());
    let (state, _) = state.step(Event::Entries(vec![]));
    let (state, _) = state.step(Event::Scratch("/tmp/x".to_string()));
    let (state, _) = state.step(Event::Exited(Some(0)));
    let (state, _) = state.step(Event::Contents("ls".to_string()));
    let (state, _) = state.step(Event::Done);
    assert_eq!(state.step(Event::Failed).1, Action::Finish(Err(StoreError::WriteCommand)));
}

#[test]
fn rename_refuses_an_empty_new_name() {
    let (state, action) = store().rename("deploy".to_string(), String::new());
    assert_eq!(action, Action::Finish(Err(StoreError::EmptyName)));
    assert!(state.is_finished());
}

#[test]
fn rename_refuses_the_same_name() {
    let (state, action) = store().rename("deploy".to_string(), "deploy".to_string());
    assert_eq!(action, Action::Finish(Err(StoreError::SameName)));
    assert!(state.is_finished());
}

#[test]
fn rename_empty_name_comes_before_same_name() {
    let (_, action) = store().rename(String::new(), String::new());
    assert_eq!(action, Action::Finish(Err(StoreError::EmptyName)));
}

#[test]
fn rename_refuses_a_name_that_is_taken() {
    let mut w = world(&[("/store/deploy.sh", "echo hi"), ("/store/build.sh", "make")]);
    let before = w.files.clone();
    let result = drive(&mut w, store().rename("deploy".to_string(), "build".to_string()));
    assert_eq!(result, Err(StoreError::AlreadyExists));
    assert_eq!(w.files, before);
}

#[test]
fn rename_refuses_a_missing_task() {
    let mut w = world(&[("/store/build.sh", "make")]);
    let before = w.files.clone();
    let result = drive(&mut w, store().rename("deploy".to_string(), "ship".to_string()));
    assert_eq!(result, Err(StoreError::NotFound));
    assert_eq!(w.files, before);
}

#[test]
fn rename_refuses_a_target_file_that_is_not_listed() {
    let (state, action) = store().rename("deploy".to_string(), "ship".to_string());
    assert_eq!(action, Action::ReadStorage { dir: "/store".to_string() });
    let entries = vec![
        Entry { file_name: "deploy.sh".to_string(), is_file: true },
        Entry { file_name: "ship.sh".to_string(), is_file: false },
    ];
    let (state, action) = state.step(Event::Entries(entries));
    assert_eq!(action, Action::Exists { path: "/store/deploy.sh".to_string() });
    let (state, action) = state.step(Event::Exists(true));
    assert_eq!(action, Action::Exists { path: "/store/ship.sh".to_string() });
    let (state, action) = state.step(Event::Exists(true));
    assert_eq!(action, Action::Finish(Err(StoreError::AlreadyExists)));
    assert!(state.is_finished());
}

#[test]
fn rename_moves_the_file() {
    let mut w = world(&[("/store/deploy.sh", "echo hi"), ("/store/build.sh", "make")]);
    let result = drive(&mut w, store().rename("deploy".to_string(), "ship".to_string()));
    assert_eq!(result, Ok(()));
    assert!(!w.files.contains_key("/store/deploy.sh"));
    assert_eq!(w.files.get("/store/ship.sh"), Some(&"echo hi".to_string()));
    assert_eq!(w.files.get("/store/build.sh"), Some(&"make".to_string()));
    assert_eq!(w.files.len(), 2);
}

#[test]
fn rename_asks_for_one_rename() {
    let (state, _) = store().rename("deploy".to_string(), "ship".to_string());
    let (state, _) =
        state.step(Event::Entries(vec![Entry { file_name: "deploy.sh".to_string(), is_file: true }]));
    let (state, _) = state.step(Event::Exists(true));
    let (state, action) = state.step(Event::Exists(false));
    assert_eq!(
        action,
        Action::RenameFile {
            from: "/store/deploy.sh".to_string(),
            to: "/store/ship.sh".to_string()
        }
    );
    let (state, action) = state.step(Event::Failed);
    assert_eq!(action, Action::Finish(Err(StoreError::Rename)));
    assert!(state.is_finished());
}

#[test]
fn delete_declined_keeps_the_file() {
    for answer in ["n", "", "\n", "n\n", "N", "yes", "yy", "no\n", " \n"] {
        let mut w = world(&[("/store/deploy.sh", "echo hi")]);
        w.answer = answer.to_string();
        let before = w.files.clone();
        let result = drive(&mut w, store().delete(Some("deploy".to_string())));
        assert_eq!(result, Ok(()));
        assert_eq!(w.files, before);
        assert_eq!(
            w.asked,
            vec!["Are you sure you want to delete deploy command? (y/N): ".to_string()]
        );
    }
}

#[test]
fn delete_confirmed_removes_the_file() {
    for answer in ["y", "Y", "y\n", "Y\n", "  y \r\n"] {
        let mut w = world(&[("/store/deploy.sh", "echo hi"), ("/store/build.sh", "make")]);
        w.answer = answer.to_string();
        let result = drive(&mut w, store().delete(Some("deploy".to_string())));
        assert_eq!(result, Ok(()));
        assert!(!w.files.contains_key("/store/deploy.sh"));
        assert_eq!(w.files.get("/store/build.sh"), Some(&"make".to_string()));
    }
}

#[test]
fn delete_missing_task_is_not_found() {
    let mut w = world(&[("/store/build.sh", "make")]);
    w.answer = "y".to_string();
    let result = drive(&mut w, store().delete(Some("deploy".to_string())));
    assert_eq!(result, Err(StoreError::NotFound));
    assert!(w.asked.is_empty());
    assert_eq!(w.files.len(), 1);
}

#[test]
fn delete_reports_each_failure() {
    let (state, _) = store().delete(Some("deploy".to_string()));
    let (state, _) = state.step(Event::Exists(true));
    assert_eq!(state.step(Event::Failed).1, Action::Finish(Err(StoreError::ReadInput)));

    let (state, _) = store().delete(Some("deploy".to_string()));
    let (state, _) = state.step(Event::Exists(true));
    let (state, action) = state.step(Event::Line("y\n".to_string()));
    assert_eq!(action, Action::RemoveFile { path: "/store/deploy.sh".to_string() });
    assert_eq!(state.step(Event::Failed).1, Action::Finish(Err(StoreError::Delete)));
}

#[test]
fn list_on_empty_storage_prints_the_hint_and_selects_nothing() {
    let (state, action) = store().list();
    assert_eq!(action, Action::ReadStorage { dir: "/store".to_string() });
    let (state, action) = state.step(Event::Entries(vec![]));
    assert_eq!(
        action,
        Action::Print {
            lines: vec![
                "No commands found.".to_string(),
                "Use `zerp add <name>` to add a new command.".to_string()
            ]
        }
    );
    let (state, action) = state.step(Event::Done);
    assert_eq!(action, Action::Finish(Ok(())));
    assert!(state.is_finished());
    assert!(state.tasks().is_empty());
}

#[test]
fn list_prints_the_tasks_in_the_order_of_the_entries() {
    let entries = vec![
        Entry { file_name: "deploy.sh".to_string(), is_file: true },
        Entry { file_name: "notes.txt".to_string(), is_file: true },
        Entry { file_name: "old.sh".to_string(), is_file: false },
        Entry { file_name: ".sh".to_string(), is_file: true },
        Entry { file_name: "config.toml".to_string(), is_file: true },
        Entry { file_name: "a.b.sh".to_string(), is_file: true },
        Entry { file_name: "build.sh".to_string(), is_file: true },
    ];
    let (state, _) = store().list();
    let (state, action) = state.step(Event::Entries(entries));
    assert_eq!(
        action,
        Action::Print {
            lines: vec!["deploy".to_string(), "a.b".to_string(), "build".to_string()]
        }
    );
    let (_, action) = state.step(Event::Done);
    assert_eq!(action, Action::Finish(Ok(())));
}

#[test]
fn list_fails_when_the_directory_cannot_be_read() {
    let (state, _) = store().list();
    let (state, action) = state.step(Event::Failed);
    assert_eq!(action, Action::Finish(Err(StoreError::ReadStorage)));
    assert!(state.is_finished());
}

#[test]
fn run_deploy_succeeds_iff_the_script_does() {
    for (code, expected) in [
        (Some(0), Ok(())),
        (Some(1), Err(StoreError::CommandFailed)),
        (Some(130), Err(StoreError::CommandFailed)),
        (None, Err(StoreError::CommandFailed)),
    ] {
        let mut w = world(&[("/store/deploy.sh", "echo hi")]);
        w.shell_code = code;
        let result = drive(&mut w, store().run(Some("deploy".to_string())));
        assert_eq!(result, expected);
        assert_eq!(w.launched, vec![("sh".to_string(), vec!["/store/deploy.sh".to_string()])]);
        assert_eq!(w.files.get("/store/deploy.sh"), Some(&"echo hi".to_string()));
    }
}

#[test]
fn run_missing_task_is_not_found() {
    let mut w = world(&[]);
    let result = drive(&mut w, store().run(Some("deploy".to_string())));
    assert_eq!(result, Err(StoreError::NotFound));
    assert!(w.launched.is_empty());
}

#[test]
fn run_fails_when_the_shell_cannot_start() {
    let (state, _) = store().run(Some("deploy".to_string()));
    let (state, _) = state.step(Event::Exists(true));
    assert_eq!(state.step(Event::Failed).1, Action::Finish(Err(StoreError::Execute)));
}

#[test]
fn edit_opens_the_editor_on_the_file() {
    let mut w = world(&[("/store/deploy.sh", "echo hi")]);
    w.typed = "echo ho".to_string();
    let result = drive(&mut w, store().edit(Some("deploy".to_string())));
    assert_eq!(result, Ok(()));
    assert_eq!(w.launched, vec![("vim".to_string(), vec!["/store/deploy.sh".to_string()])]);
}

#[test]
fn edit_fails_with_the_editor() {
    let mut w = world(&[("/store/deploy.sh", "echo hi")]);
    w.editor_code = Some(2);
    let result = drive(&mut w, store().edit(Some("deploy".to_string())));
    assert_eq!(result, Err(StoreError::EditorFailed));

    let mut w = world(&[]);
    let result = drive(&mut w, store().edit(Some("deploy".to_string())));
    assert_eq!(result, Err(StoreError::NotFound));

    let (state, _) = store().edit(Some("deploy".to_string()));
    let (state, _) = state.step(Event::Exists(true));
    assert_eq!(state.step(Event::Failed).1, Action::Finish(Err(StoreError::OpenEditor)));
}

#[test]
fn an_event_that_does_not_answer_ends_the_operation() {
    let (state, _) = store().add("build".to_string());
    let (state, action) = state.step(Event::Done);
    assert_eq!(action, Action::Finish(Err(StoreError::Unexpected)));
    assert!(state.is_finished());

    let (state, _) = store().run(Some("deploy".to_string()));
    let (_, action) = state.step(Event::Failed);
    assert_eq!(action, Action::Finish(Err(StoreError::Unexpected)));

    let (_, action) = store().step(Event::Done);
    assert_eq!(action, Action::Finish(Err(StoreError::Unexpected)));
}

#[test]
fn a_finished_operation_stays_finished() {
    let (state, _) = store().rename("a".to_string(), "a".to_string());
    let (state, action) = state.step(Event::Done);
    assert_eq!(action, Action::Finish(Err(StoreError::Unexpected)));
    let (state, action) = state.step(Event::Entries(vec![]));
    assert_eq!(action, Action::Finish(Err(StoreError::Unexpected)));
    assert!(state.is_finished());
}

#[test]
fn an_operation_cannot_start_within_another() {
    let (state, _) = store().list();
    let (state, action) = state.add("build".to_string());
    assert_eq!(action, Action::Finish(Err(StoreError::Unexpected)));
    assert!(state.is_finished());
    let (_, action) = state.rename("a".to_string(), String::new());
    assert_eq!(action, Action::Finish(Err(StoreError::Unexpected)));
}

#[test]
fn file_paths_lie_in_the_storage_directory() {
    assert_eq!(store().get_file_path("deploy".to_string()), "/store/deploy.sh");
    assert_eq!(store().get_file_path(String::new()), "/store/.sh");
    let s = State::new("/store/".to_string(), "vim".to_string());
    assert_eq!(s.get_file_path("deploy".to_string()), "/store/deploy.sh");
    let s = State::new(String::new(), "vim".to_string());
    assert_eq!(s.get_file_path("deploy".to_string()), "deploy.sh");
    assert_eq!(store().get_file_path("/abs/deploy".to_string()), "/abs/deploy.sh");
}

#[test]
fn a_new_store_has_seen_no_task() {
    let s = store();
    assert!(s.tasks().is_empty());
    assert!(!s.is_finished());
}

#[test]
fn errors_have_their_words_and_their_class() {
    assert_eq!(StoreError::AlreadyExists.message(), "Command with this name already exists");
    assert_eq!(StoreError::NotFound.message(), "Command not found");
    assert_eq!(StoreError::EmptyName.message(), "New name cannot be empty");
    assert_eq!(StoreError::SameName.message(), "Current name and new name cannot be the same");
    assert_eq!(StoreError::EditorFailed.message(), "Editor exited with non-zero status");
    assert_eq!(StoreError::CommandFailed.message(), "Command exited with non-zero status");
    assert_eq!(StoreError::ReadStorage.message(), "Failed to read storage directory");
    assert_eq!(StoreError::Rename.message(), "Failed to rename command file");
    assert_eq!(StoreError::NotFound.kind(), ErrorKind::NotFound);
    assert_eq!(StoreError::AlreadyExists.kind(), ErrorKind::AlreadyExists);
    assert_eq!(StoreError::EmptyName.kind(), ErrorKind::InvalidInput);
    assert_eq!(StoreError::SameName.kind(), ErrorKind::InvalidInput);
    assert_eq!(StoreError::EditorFailed.kind(), ErrorKind::Subprocess);
    assert_eq!(StoreError::CommandFailed.kind(), ErrorKind::Subprocess);
    assert_eq!(StoreError::SelectorFailed.kind(), ErrorKind::Subprocess);
    assert_eq!(StoreError::WriteCommand.kind(), ErrorKind::Io);
    assert_eq!(StoreError::Delete.kind(), ErrorKind::Io);
    assert_eq!(StoreError::Unexpected.kind(), ErrorKind::Protocol);
}

/// A sequence of events drawn from a small pool, by a linear congruential
/// generator seeded with `seed`.
fn some_events(seed: u64, len: usize) -> Vec<Event> {
    let mut x = seed;
    let mut events = Vec::new();
    for _ in 0..len {
        x = x.wrapping_mul(6364136223846793005).wrapping_add(1442695040888963407);
        let event = match (x >> 33) % 16 {
            0 => Event::Entries(vec![]),
            1 => Event::Entries(vec![Entry { file_name: "deploy.sh".to_string(), is_file: true }]),
            2 => Event::Entries(vec![
                Entry { file_name: "deploy.sh".to_string(), is_file: true },
                Entry { file_name: "build.sh".to_string(), is_file: true },
            ]),
            3 => Event::Exists(true),
            4 => Event::Exists(false),
            5 => Event::Exited(Some(0)),
            6 => Event::Exited(Some(1)),
            7 => Event::Output { code: Some(0), stdout: Some("deploy\n".to_string()) },
            8 => Event::Output { code: Some(130), stdout: None },
            9 => Event::Chosen(Some(0)),
            10 => Event::Chosen(None),
            11 => Event::Line("y\n".to_string()),
            12 => Event::Scratch("/tmp/s".to_string()),
            13 => Event::Contents("echo hi\n".to_string()),
            14 => Event::Done,
            _ => Event::Failed,
        };
        events.push(event);
    }
    events
}

/// The actions that an operation asks for in the course of `events`, up to
/// its end.
fn actions(start: (State, Action), events: Vec<Event>) -> Vec<Action> {
    let (mut state, mut action) = start;
    let mut asked = Vec::new();
    for event in events {
        if let Action::Finish(_) = action {
            break;
        }
        asked.push(action);
        let next = state.step(event);
        state = next.0;
        action = next.1;
    }
    asked.push(action);
    asked
}

fn starts(which: u64) -> (State, Action) {
    match which % 9 {
        0 => store().add("build".to_string()),
        1 => store().list(),
        2 => store().run(None),
        3 => store().run(Some("deploy".to_string())),
        4 => store().edit(None),
        5 => store().edit(Some("deploy".to_string())),
        6 => store().delete(None),
        7 => store().delete(Some("deploy".to_string())),
        _ => store().rename("deploy".to_string(), "ship".to_string()),
    }
}

fn changes_a_file(action: &Action) -> bool {
    matches!(
        action,
        Action::WriteFile { .. } | Action::RemoveFile { .. } | Action::RenameFile { .. }
    )
}

#[test]
fn every_operation_ends_within_seven_events() {
    for seed in 0..4000u64 {
        let asked = actions(starts(seed), some_events(seed, 7));
        assert!(asked.len() <= 8);
        assert!(matches!(asked.last(), Some(Action::Finish(_))), "seed {}", seed);
    }
}

#[test]
fn the_longest_operation_takes_seven_events() {
    let events = vec![
        Event::Entries(vec![Entry { file_name: "deploy.sh".to_string(), is_file: true }]),
        Event::Exited(Some(0)),
        Event::Exited(Some(0)),
        Event::Output { code: Some(0), stdout: Some("deploy\n".to_string()) },
        Event::Exists(true),
        Event::Line("y\n".to_string()),
        Event::Done,
    ];
    let asked = actions(store().delete(None), events);
    assert_eq!(asked.len(), 8);
    assert_eq!(asked[6], Action::RemoveFile { path: "/store/deploy.sh".to_string() });
    assert_eq!(asked[7], Action::Finish(Ok(())));
}

#[test]
fn listing_only_reads() {
    for seed in 0..2000u64 {
        for action in actions(store().list(), some_events(seed, 7)) {
            assert!(!changes_a_file(&action));
            assert!(!matches!(action, Action::Choose { .. } | Action::Pipe { .. }));
        }
    }
}

#[test]
fn running_and_editing_change_no_file() {
    for seed in 0..4000u64 {
        let start = match seed % 4 {
            0 => store().run(None),
            1 => store().run(Some("deploy".to_string())),
            2 => store().edit(None),
            _ => store().edit(Some("deploy".to_string())),
        };
        for action in actions(start, some_events(seed, 7)) {
            assert!(!changes_a_file(&action), "seed {}", seed);
        }
    }
}

#[test]
fn two_tasks_have_two_files() {
    let names = ["deploy", "build", "", "a.b", "a", "a.sh", "deploy ", "x/y"];
    for a in names {
        for b in names {
            if a != b {
                assert_ne!(
                    store().get_file_path(a.to_string()),
                    store().get_file_path(b.to_string())
                );
            }
        }
    }
    assert_eq!(
        store().get_file_path("/store/deploy".to_string()),
        store().get_file_path("deploy".to_string())
    );
}

#[test]
fn renaming_asks_for_one_renaming_at_most() {
    for seed in 0..4000u64 {
        let start = store().rename("deploy".to_string(), "ship".to_string());
        let changes: Vec<Action> = actions(start, some_events(seed, 7))
            .into_iter()
            .filter(changes_a_file)
            .collect();
        assert!(changes.len() <= 1);
        for change in changes {
            assert_eq!(
                change,
                Action::RenameFile {
                    from: "/store/deploy.sh".to_string(),
                    to: "/store/ship.sh".to_string()
                }
            );
        }
    }
}

#[test]
fn deleting_asks_for_one_removal_at_most() {
    for seed in 0..4000u64 {
        let start = store().delete(Some("deploy".to_string()));
        let changes: Vec<Action> = actions(start, some_events(seed, 7))
            .into_iter()
            .filter(changes_a_file)
            .collect();
        assert!(changes.len() <= 1);
        for change in changes {
            assert_eq!(change, Action::RemoveFile { path: "/store/deploy.sh".to_string() });
        }
    }
}

#[test]
fn adding_writes_the_task_only() {
    for seed in 0..4000u64 {
        let start = store().add("build".to_string());
        for action in actions(start, some_events(seed, 7)) {
            match action {
                Action::WriteFile { path, contents } => {
                    assert_eq!(path, "/store/build.sh");
                    assert!(!contents.trim().is_empty());
                }
                Action::RemoveFile { path } => assert_eq!(path, "/tmp/s"),
                Action::RenameFile { .. } => panic!("adding renames nothing"),
                _ => {}
            }
        }
    }
}

#[test]
fn a_task_that_was_added_is_listed_and_its_name_is_taken() {
    let mut w = world(&[]);
    w.typed = "echo build\n".to_string();
    assert_eq!(drive(&mut w, store().add("build".to_string())), Ok(()));
    assert_eq!(drive(&mut w, store().list()), Ok(()));
    assert_eq!(w.printed, vec!["build".to_string()]);
    w.typed = "echo again\n".to_string();
    assert_eq!(
        drive(&mut w, store().add("build".to_string())),
        Err(StoreError::AlreadyExists)
    );
    assert_eq!(w.files.get("/store/build.sh"), Some(&"echo build\n".to_string()));
}

#[test]
fn every_error_has_its_words() {
    let all = [
        (StoreError::AlreadyExists, "Command with this name already exists"),
        (StoreError::NotFound, "Command not found"),
        (StoreError::EmptyName, "New name cannot be empty"),
        (StoreError::SameName, "Current name and new name cannot be the same"),
        (StoreError::EditorFailed, "Editor exited with non-zero status"),
        (StoreError::CommandFailed, "Command exited with non-zero status"),
        (StoreError::SelectorFailed, "fzf exited with an error"),
        (StoreError::SelectorOutput, "Failed to parse fzf output"),
        (StoreError::BadChoice, "The prompt picked an item that it was not offered"),
        (StoreError::ReadStorage, "Failed to read storage directory"),
        (StoreError::WriteScratch, "Failed to write to temp file"),
        (StoreError::ReadScratch, "Failed to read temp file"),
        (StoreError::RemoveScratch, "Failed to remove temp file"),
        (StoreError::OpenEditor, "Failed to open editor"),
        (StoreError::WriteCommand, "Failed to write command file"),
        (StoreError::Execute, "Failed to execute command"),
        (StoreError::SpawnSelector, "Failed to run fzf"),
        (StoreError::Prompt, "Failed to show the selection prompt"),
        (StoreError::ReadInput, "Failed to read input"),
        (StoreError::Delete, "Failed to delete command"),
        (StoreError::Rename, "Failed to rename command file"),
        (StoreError::Unexpected, "The event does not answer the pending action"),
    ];
    for (error, words) in all {
        assert_eq!(error.message(), words);
    }
    let io = [
        StoreError::SelectorOutput,
        StoreError::ReadStorage,
        StoreError::WriteScratch,
        StoreError::ReadScratch,
        StoreError::RemoveScratch,
        StoreError::OpenEditor,
        StoreError::WriteCommand,
        StoreError::Execute,
        StoreError::SpawnSelector,
        StoreError::Prompt,
        StoreError::ReadInput,
        StoreError::Delete,
        StoreError::Rename,
    ];
    for error in io {
        assert_eq!(error.kind(), ErrorKind::Io);
    }
    assert_eq!(StoreError::BadChoice.kind(), ErrorKind::Protocol);
}

#[test]
fn adding_under_the_empty_name_is_refused() {
    let (state, action) = store().add(String::new());
    assert_eq!(action, Action::Finish(Err(StoreError::EmptyName)));
    assert!(state.is_finished());

    let mut w = world(&[("/store/.sh", "echo hidden")]);
    w.typed = "echo new\n".to_string();
    let before = w.files.clone();
    assert_eq!(drive(&mut w, store().add(String::new())), Err(StoreError::EmptyName));
    assert_eq!(w.files, before);
    assert!(w.launched.is_empty());
    assert_eq!(StoreError::EmptyName.kind(), ErrorKind::InvalidInput);
}

#[test]
fn the_empty_name_names_no_task() {
    let (state, action) = store().run(Some(String::new()));
    assert_eq!(action, Action::Finish(Err(StoreError::NotFound)));
    assert!(state.is_finished());
    let (_, action) = store().edit(Some(String::new()));
    assert_eq!(action, Action::Finish(Err(StoreError::NotFound)));
    let (_, action) = store().delete(Some(String::new()));
    assert_eq!(action, Action::Finish(Err(StoreError::NotFound)));

    let mut w = world(&[("/store/.sh", "echo hidden")]);
    w.answer = "y".to_string();
    let before = w.files.clone();
    assert_eq!(drive(&mut w, store().run(Some(String::new()))), Err(StoreError::NotFound));
    assert_eq!(drive(&mut w, store().edit(Some(String::new()))), Err(StoreError::NotFound));
    assert_eq!(drive(&mut w, store().delete(Some(String::new()))), Err(StoreError::NotFound));
    assert_eq!(w.files, before);
    assert!(w.launched.is_empty());
    assert!(w.asked.is_empty());
}

#[test]
fn renaming_the_task_without_a_name_finds_none() {
    let (state, action) = store().rename(String::new(), "ship".to_string());
    assert_eq!(action, Action::ReadStorage { dir: "/store".to_string() });
    let (state, action) = state.step(Event::Entries(vec![
        Entry { file_name: ".sh".to_string(), is_file: true },
        Entry { file_name: "deploy.sh".to_string(), is_file: true },
    ]));
    assert_eq!(action, Action::Finish(Err(StoreError::NotFound)));
    assert!(state.is_finished());

    let (state, _) = store().rename(String::new(), "deploy".to_string());
    let (_, action) = state
        .step(Event::Entries(vec![Entry { file_name: "deploy.sh".to_string(), is_file: true }]));
    assert_eq!(action, Action::Finish(Err(StoreError::AlreadyExists)));

    let mut w = world(&[("/store/.sh", "echo hidden")]);
    let before = w.files.clone();
    assert_eq!(
        drive(&mut w, store().rename(String::new(), "ship".to_string())),
        Err(StoreError::NotFound)
    );
    assert_eq!(w.files, before);
}

#[test]
fn no_listed_task_has_the_empty_name() {
    let (state, _) = store().list();
    let (state, _) = state.step(Event::Entries(vec![
        Entry { file_name: ".sh".to_string(), is_file: true },
        Entry { file_name: "sh".to_string(), is_file: true },
        Entry { file_name: "a.sh".to_string(), is_file: true },
    ]));
    assert_eq!(state.tasks(), &vec!["a".to_string()]);
}
