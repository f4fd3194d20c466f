//! The pieces of a selection through the fuzzy finder `fzf`: how to look for
//! it, what to run, what to feed it, and what its answer means.

use vstd::prelude::*;
use vstd::string::*;
use crate::protocol::{text_of, texts, Action, ActionView, Event, EventView, StoreError};
use crate::text::{trimmed, trim_owned};

verus! {

/// The exit code by which `fzf` says that the user cancelled.
pub const CANCELLED: i32 = 130;

/// The action that looks for `program` on the search path: `where` on
/// Windows, `which` elsewhere, run quietly.
pub open spec fn probe_of(program: Seq<char>, windows: bool) -> ActionView {
    ActionView::Launch {
        program: if windows {
            "where"@
        } else {
            "which"@
        },
        args: seq![program],
        quiet: true,
    }
}

/// Whether `probe`, the answer to a probe, says that the program is there:
/// the probe ran and ended with success.
pub open spec fn available(probe: EventView) -> bool {
    probe == EventView::Exited(Some(0i32))
}

/// The command that `fzf` runs to show the task under the cursor: `bat` where
/// it can be had, else the plain command of the platform, on the task's file
/// in `storage`. `fzf` puts the task's name in place of `{}`.
pub open spec fn preview_of(storage: Seq<char>, viewer: bool, windows: bool) -> Seq<char> {
    let file = storage + "/{}.sh"@;
    if viewer {
        "bat --color=always --style=numbers "@ + file
    } else if windows {
        "type "@ + file
    } else {
        "cat "@ + file
    }
}

/// The arguments that `fzf` is run with.
pub open spec fn arguments_of(header: Seq<char>, preview: Option<Seq<char>>) -> Seq<Seq<char>> {
    let plain = seq![
        "--height=30%"@,
        "--border=rounded"@,
        "--header="@ + header,
        "--pointer=\u{25b6}"@,
        "--prompt=Command > "@,
    ];
    match preview {
        Some(command) => plain + seq!["--preview="@ + command, "--preview-window=right:60%"@],
        None => plain,
    }
}

/// `items`, each followed by a line feed.
pub open spec fn lines_of(items: Seq<Seq<char>>) -> Seq<char>
    decreases items.len(),
{
    if items.len() == 0 {
        Seq::empty()
    } else {
        lines_of(items.drop_last()) + items.last() + "\n"@
    }
}

/// The action that lets the user pick one of `tasks` in `fzf`.
pub open spec fn finder_of(
    storage: Seq<char>,
    header: Seq<char>,
    tasks: Seq<Seq<char>>,
    viewer: bool,
    windows: bool,
) -> ActionView {
    ActionView::Pipe {
        program: "fzf"@,
        args: arguments_of(header, Some(preview_of(storage, viewer, windows))),
        input: lines_of(tasks),
    }
}

/// What lets the user pick one of `tasks` in `fzf`: the action of
/// `finder_of`, or nothing where there is no task to pick from.
pub open spec fn selecting_of(
    storage: Seq<char>,
    header: Seq<char>,
    tasks: Seq<Seq<char>>,
    viewer: bool,
    windows: bool,
) -> Option<ActionView> {
    if tasks.len() == 0 {
        None
    } else {
        Some(finder_of(storage, header, tasks, viewer, windows))
    }
}

/// An optional action, as plain values.
pub open spec fn asked(action: Option<Action>) -> Option<ActionView> {
    match action {
        Some(action) => Some(action@),
        None => None,
    }
}

/// What a run of `fzf` that ended with `code` and wrote `stdout` selected.
/// After success it is the trimmed output, or nothing where that is empty;
/// output that is not UTF-8 is an error. The code 130 is a cancellation and
/// selects nothing. Any other end is an error.
pub open spec fn selection_of(code: Option<i32>, stdout: Option<Seq<char>>) -> Result<
    Option<Seq<char>>,
    StoreError,
> {
    if code == Some(0i32) {
        match stdout {
            None => Err(StoreError::SelectorOutput),
            Some(text) => if trimmed(text).len() == 0 {
                Ok(None)
            } else {
                Ok(Some(trimmed(text)))
            },
        }
    } else if code == Some(CANCELLED) {
        Ok(None)
    } else {
        Err(StoreError::SelectorFailed)
    }
}

/// The texts in the result of a selection.
pub open spec fn selected(r: Result<Option<String>, StoreError>) -> Result<
    Option<Seq<char>>,
    StoreError,
> {
    match r {
        Ok(name) => Ok(text_of(name)),
        Err(e) => Err(e),
    }
}

/// The action that looks for `program` on the search path.
pub fn probe(program: &str, windows: bool) -> (r: Action)
    ensures
        r@ == probe_of(program@, windows),
{
    let finder: &str = if windows {
        "where"
    } else {
        "which"
    };
    let args: Vec<String> = vec![String::from_str(program)];
    assert(texts(args@) =~= seq![program@]);
    Action::Launch { program: String::from_str(finder), args, quiet: true }
}

/// Whether `probe`, the answer to the probe for `fzf`, says that it is there.
pub fn is_fzf_available(probe: &Event) -> (r: bool)
    ensures
        r == available(probe@),
{
    match probe {
        Event::Exited(Some(code)) => *code == 0,
        _ => false,
    }
}

/// The command that `fzf` runs to show the task under the cursor.
pub fn preview_command(storage: &str, viewer: bool, windows: bool) -> (r: String)
    ensures
        r@ == preview_of(storage@, viewer, windows),
{
    let tool: &str = if viewer {
        "bat --color=always --style=numbers "
    } else if windows {
        "type "
    } else {
        "cat "
    };
    let r = String::from_str(tool).concat(storage).concat("/{}.sh");
    assert(r@ =~= preview_of(storage@, viewer, windows));
    r
}

/// The arguments that `fzf` is run with.
pub fn fzf_arguments(header: &str, preview: Option<&str>) -> (r: Vec<String>)
    ensures
        texts(r@) == arguments_of(
            header@,
            match preview {
                Some(command) => Some(command@),
                None => None,
            },
        ),
{
    let mut args: Vec<String> = vec![
        String::from_str("--height=30%"),
        String::from_str("--border=rounded"),
        String::from_str("--header=").concat(header),
        String::from_str("--pointer=\u{25b6}"),
        String::from_str("--prompt=Command > "),
    ];
    match preview {
        Some(command) => {
            args.push(String::from_str("--preview=").concat(command));
            args.push(String::from_str("--preview-window=right:60%"));
            assert(texts(args@) =~= arguments_of(header@, Some(command@)));
        },
        None => {
            assert(texts(args@) =~= arguments_of(header@, None));
        },
    }
    args
}

/// What `fzf` is fed: `items`, each followed by a line feed.
pub fn fzf_input(items: &Vec<String>) -> (r: String)
    ensures
        r@ == lines_of(texts(items@)),
{
    let mut r = String::new();
    let mut i: usize = 0;
    while i < items.len()
        invariant
            i <= items.len(),
            r@ == lines_of(texts(items@).take(i as int)),
        decreases items.len() - i,
    {
        proof {
            let next = texts(items@).take(i + 1);
            assert(next.drop_last() =~= texts(items@).take(i as int));
            assert(next.last() == items@[i as int]@);
        }
        r.append(items[i].as_str());
        r.append("\n");
        i += 1;
    }
    assert(texts(items@).take(i as int) =~= texts(items@));
    r
}

/// The action that lets the user pick one of `tasks` in `fzf`, under
/// `header`, with a preview of the task's file in `storage`; no action
/// where there is no task to pick from.
pub fn select_task_with_preview(
    storage: &str,
    header: &str,
    tasks: &Vec<String>,
    viewer: bool,
    windows: bool,
) -> (r: Option<Action>)
    ensures
        asked(r) == selecting_of(storage@, header@, texts(tasks@), viewer, windows),
{
    if tasks.len() == 0 {
        return None;
    }
    let preview = preview_command(storage, viewer, windows);
    Some(
        Action::Pipe {
            program: String::from_str("fzf"),
            args: fzf_arguments(header, Some(preview.as_str())),
            input: fzf_input(tasks),
        },
    )
}

/// What a run of `fzf` that ended with `code` and wrote `stdout` selected.
pub fn selection(code: Option<i32>, stdout: Option<String>) -> (r: Result<
    Option<String>,
    StoreError,
>)
    ensures
        selected(r) == selection_of(code, text_of(stdout)),
{
    match code {
        Some(0) => match stdout {
            None => Err(StoreError::SelectorOutput),
            Some(text) => {
                let name = trim_owned(text.as_str());
                if name.as_str().is_empty() {
                    Ok(None)
                } else {
                    Ok(Some(name))
                }
            },
        },
        Some(130) => Ok(None),
        _ => Err(StoreError::SelectorFailed),
    }
}

} // verus!
