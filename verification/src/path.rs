//! Paths as text, and the names of the files that hold tasks.

use vstd::prelude::*;
use vstd::string::*;

verus! {

/// `child` adjoined to `base`: a `child` that begins with `/` stands for
/// itself; otherwise it follows `base`, after a `/` unless `base` is empty or
/// ends with one already.
pub open spec fn joined(base: Seq<char>, child: Seq<char>) -> Seq<char> {
    if child.len() > 0 && child[0] == '/' {
        child
    } else if base.len() > 0 && base.last() != '/' {
        base + "/"@ + child
    } else {
        base + child
    }
}

/// Adjoins `child` to `base`.
pub fn join_path(base: &str, child: &str) -> (r: String)
    ensures
        r@ == joined(base@, child@),
{
    let child_len: usize = child.unicode_len();
    if child_len > 0 && child.get_char(0) == '/' {
        return String::from_str(child);
    }
    let base_len: usize = base.unicode_len();
    let mut r = String::from_str(base);
    if base_len > 0 && base.get_char(base_len - 1) != '/' {
        r.append("/");
    }
    r.append(child);
    r
}

/// The name of the file that holds the task `name`.
pub open spec fn file_name_of(name: Seq<char>) -> Seq<char> {
    name + ".sh"@
}

/// Whether a file called `file` holds a task: it does when its name ends with
/// `.sh` and has something before that.
pub open spec fn is_task_file(file: Seq<char>) -> bool {
    file.len() > 3 && file.subrange(file.len() - 3, file.len() as int) == ".sh"@
}

/// The name of the task that the file called `file` holds: the file's name
/// without its last three characters.
pub open spec fn task_of(file: Seq<char>) -> Seq<char>
    recommends
        is_task_file(file),
{
    file.subrange(0, file.len() - 3)
}

/// The name of the file that holds the task `name`.
pub fn task_file_name(name: &str) -> (r: String)
    ensures
        r@ == file_name_of(name@),
{
    String::from_str(name).concat(".sh")
}

/// The task that a file called `file` holds, if it holds one.
pub fn task_name(file: &str) -> (r: Option<String>)
    ensures
        r is Some <==> is_task_file(file@),
        r is Some ==> r->0@ == task_of(file@),
{
    proof {
        reveal_strlit(".sh");
    }
    let n: usize = file.unicode_len();
    if n > 3 && file.get_char(n - 3) == '.' && file.get_char(n - 2) == 's' && file.get_char(n - 1)
        == 'h' {
        assert(file@.subrange(n - 3, n as int) =~= ".sh"@);
        Some(String::from_str(file.substring_char(0, n - 3)))
    } else {
        assert(n > 3 ==> file@.subrange(n - 3, n as int)[0] == file@[n - 3]);
        assert(n > 3 ==> file@.subrange(n - 3, n as int)[1] == file@[n - 2]);
        assert(n > 3 ==> file@.subrange(n - 3, n as int)[2] == file@[n - 1]);
        None
    }
}

/// A task with a name is found again under that name: the file that holds it
/// is a task file, and the task it holds is `name`. The file of the task
/// without a name holds no task.
pub proof fn lemma_task_file_round_trip(name: Seq<char>)
    ensures
        is_task_file(file_name_of(name)) <==> name.len() > 0,
        task_of(file_name_of(name)) == name,
{
    reveal_strlit(".sh");
    let f = file_name_of(name);
    assert(f.len() == name.len() + 3);
    assert(f.subrange(f.len() - 3, f.len() as int) =~= ".sh"@);
    assert(f.subrange(0, f.len() - 3) =~= name);
}

/// Two tasks share a file only if they share a name.
pub proof fn lemma_file_name_injective(a: Seq<char>, b: Seq<char>)
    requires
        file_name_of(a) == file_name_of(b),
    ensures
        a == b,
{
    lemma_task_file_round_trip(a);
    lemma_task_file_round_trip(b);
}

} // verus!
