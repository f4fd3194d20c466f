//! The keys of a settings document, read as the crate `config` reads them:
//! as paths. A path is a name, followed by any number of steps; a step is a
//! dot and a name, or a subscript in square brackets. `config` grows an array
//! to every subscript of a key at the top level of a document, so that a
//! subscript can ask for an array that no vector can hold.

use vstd::prelude::*;
use vstd::string::*;

verus! {

/// The classes of characters that a path is made of.
#[derive(Clone, Copy, Debug, PartialEq, Eq, Structural)]
pub enum Class {
    /// The characters of a name: ASCII letters and digits, `_` and `-`.
    Name,
    /// The space and the tab.
    Blank,
    /// The ASCII digits.
    Digit,
}

/// Whether `c` is of the class `class`.
pub open spec fn in_class(class: Class, c: char) -> bool {
    let n = c as u32;
    match class {
        Class::Name => (0x61 <= n <= 0x7A) || (0x41 <= n <= 0x5A) || (0x30 <= n <= 0x39) || n
            == 0x5F || n == 0x2D,
        Class::Blank => n == 0x20 || n == 0x09,
        Class::Digit => 0x30 <= n <= 0x39,
    }
}

/// Where the characters of `class` end that begin at `from` in `key`.
pub open spec fn run_end(key: Seq<char>, from: int, class: Class) -> int
    decreases key.len() - from,
{
    if 0 <= from < key.len() && in_class(class, key[from]) {
        run_end(key, from + 1, class)
    } else {
        from
    }
}

/// The digit that `c` stands for.
pub open spec fn digit_of(c: char) -> nat {
    (c as u32 - 0x30) as nat
}

/// The number that the digits of `key` from `from` up to `to` stand for.
pub open spec fn number(key: Seq<char>, from: int, to: int) -> nat
    decreases to - from,
{
    if from >= to {
        0
    } else {
        number(key, from, to - 1) * 10 + digit_of(key[to - 1])
    }
}

/// Whether a subscript of the size `size`, negative or not, is one that the
/// machine's signed word holds. A larger one is no subscript.
pub open spec fn fits(negative: bool, size: nat) -> bool {
    if negative {
        size <= isize::MAX + 1
    } else {
        size <= isize::MAX
    }
}

/// Whether an array that reaches a subscript of the size `size` may be more
/// than a vector can hold, which is `isize::MAX` bytes, at up to 1024 bytes
/// for each of its elements.
pub open spec fn strains(size: nat) -> bool {
    size >= isize::MAX / 1024
}

/// What follows the name of a path, from `at` on: `None` where it is not a
/// sequence of steps; else whether one of its subscripts strains.
pub open spec fn steps(key: Seq<char>, at: int) -> Option<bool>
    decreases key.len() - at,
{
    if at < 0 {
        None
    } else if at >= key.len() {
        Some(false)
    } else if key[at] == '.' {
        let end = run_end(key, at + 1, Class::Name);
        if at + 1 < end <= key.len() {
            steps(key, end)
        } else {
            None
        }
    } else if key[at] == '[' {
        let sign = run_end(key, at + 1, Class::Blank);
        let negative = 0 <= sign < key.len() && key[sign] == '-';
        let first = if negative {
            sign + 1
        } else {
            sign
        };
        let last = run_end(key, first, Class::Digit);
        let close = run_end(key, last, Class::Blank);
        let size = number(key, first, last);
        if last > first && fits(negative, size) && at < close < key.len() && key[close] == ']' {
            match steps(key, close + 1) {
                Some(rest) => Some(rest || strains(size)),
                None => None,
            }
        } else {
            None
        }
    } else {
        None
    }
}

/// Whether `key` is a path with a subscript that strains.
pub open spec fn risky_key(key: Seq<char>) -> bool {
    let name = run_end(key, 0, Class::Name);
    name > 0 && steps(key, name) == Some(true)
}

/// Whether none of `keys` is risky.
pub open spec fn safe_keys(keys: Seq<Seq<char>>) -> bool {
    forall|i: int| 0 <= i < keys.len() ==> !risky_key(#[trigger] keys[i])
}

/// A run of characters ends at or after its start, within the key, and at a
/// character that is not of its class.
pub proof fn lemma_run_end(key: Seq<char>, from: int, class: Class)
    requires
        0 <= from <= key.len(),
    ensures
        from <= run_end(key, from, class) <= key.len(),
        run_end(key, from, class) < key.len() ==> !in_class(
            class,
            key[run_end(key, from, class)],
        ),
        forall|i: int| from <= i < run_end(key, from, class) ==> in_class(class, #[trigger] key[i]),
    decreases key.len() - from,
{
    if from < key.len() && in_class(class, key[from]) {
        lemma_run_end(key, from + 1, class);
    }
}

/// Whether `c` is of the class `class`.
pub fn is_in_class(class: Class, c: char) -> (r: bool)
    ensures
        r == in_class(class, c),
{
    match class {
        Class::Name => (c >= 'a' && c <= 'z') || (c >= 'A' && c <= 'Z') || (c >= '0' && c <= '9')
            || c == '_' || c == '-',
        Class::Blank => c == ' ' || c == '\t',
        Class::Digit => c >= '0' && c <= '9',
    }
}

/// Where the characters of `class` end that begin at `from` in `key`, which
/// has `len` characters.
fn scan(key: &str, len: usize, from: usize, class: Class) -> (to: usize)
    requires
        len == key@.len(),
        from <= len,
    ensures
        to == run_end(key@, from as int, class),
        from <= to <= len,
{
    let mut to: usize = from;
    loop
        invariant
            len == key@.len(),
            from <= to <= len,
            run_end(key@, from as int, class) == run_end(key@, to as int, class),
        ensures
            to >= len || !in_class(class, key@[to as int]),
        decreases len - to,
    {
        if to >= len {
            break ;
        }
        if !is_in_class(class, key.get_char(to)) {
            break ;
        }
        to += 1;
    }
    to
}

/// One more than the largest size that fits.
pub open spec fn beyond() -> nat {
    (isize::MAX + 2) as nat
}

/// The number that the digits of `key` from `from` up to `to` stand for, or
/// `beyond()` where it is larger than that.
fn measure(key: &str, from: usize, to: usize) -> (size: u128)
    requires
        from <= to <= key@.len(),
        forall|i: int| from <= i < to ==> in_class(Class::Digit, #[trigger] key@[i]),
    ensures
        size == if number(key@, from as int, to as int) < beyond() {
            number(key@, from as int, to as int)
        } else {
            beyond()
        },
{
    let cap: u128 = isize::MAX as u128 + 2;
    let mut size: u128 = 0;
    let mut at: usize = from;
    while at < to
        invariant
            from <= at <= to <= key@.len(),
            cap == beyond(),
            forall|i: int| from <= i < to ==> in_class(Class::Digit, #[trigger] key@[i]),
            size == if number(key@, from as int, at as int) < beyond() {
                number(key@, from as int, at as int)
            } else {
                beyond()
            },
        decreases to - at,
    {
        let c = key.get_char(at);
        assert(in_class(Class::Digit, key@[at as int]));
        let digit: u128 = (c as u32 - 0x30) as u128;
        size = size * 10 + digit;
        if size > cap {
            size = cap;
        }
        at += 1;
    }
    size
}

/// What is known of a path's steps once a part of them has been read:
/// `rest`, with `seen` where that part held a subscript that strains.
pub open spec fn carried(seen: bool, rest: Option<bool>) -> Option<bool> {
    match rest {
        Some(strain) => Some(strain || seen),
        None => None,
    }
}

/// Whether `key` is a path with a subscript that strains.
pub fn is_risky_key(key: &str) -> (r: bool)
    ensures
        r == risky_key(key@),
{
    let len: usize = key.unicode_len();
    let name: usize = scan(key, len, 0, Class::Name);
    if name == 0 {
        return false;
    }
    let most: u128 = isize::MAX as u128;
    let mut at: usize = name;
    let mut seen: bool = false;
    loop
        invariant
            len == key@.len(),
            most == isize::MAX,
            0 < name <= at <= len,
            name == run_end(key@, 0, Class::Name),
            steps(key@, name as int) == carried(seen, steps(key@, at as int)),
        decreases len - at,
    {
        if at >= len {
            return seen;
        }
        let c = key.get_char(at);
        if c == '.' {
            let end: usize = scan(key, len, at + 1, Class::Name);
            if end == at + 1 {
                return false;
            }
            at = end;
        } else if c == '[' {
            let sign: usize = scan(key, len, at + 1, Class::Blank);
            let negative: bool = sign < len && key.get_char(sign) == '-';
            let first: usize = if negative {
                sign + 1
            } else {
                sign
            };
            let last: usize = scan(key, len, first, Class::Digit);
            let close: usize = scan(key, len, last, Class::Blank);
            if last == first || close >= len {
                return false;
            }
            if key.get_char(close) != ']' {
                return false;
            }
            proof {
                lemma_run_end(key@, first as int, Class::Digit);
            }
            let size: u128 = measure(key, first, last);
            let limit: u128 = if negative {
                most + 1
            } else {
                most
            };
            if size > limit {
                return false;
            }
            if size >= most / 1024 {
                seen = true;
            }
            at = close + 1;
        } else {
            return false;
        }
    }
}

/// Whether none of `keys` is risky.
pub fn are_safe_keys(keys: &Vec<String>) -> (r: bool)
    ensures
        r == safe_keys(crate::protocol::texts(keys@)),
{
    let mut i: usize = 0;
    while i < keys.len()
        invariant
            i <= keys.len(),
            forall|j: int| 0 <= j < i ==> !risky_key(#[trigger] crate::protocol::texts(keys@)[j]),
        decreases keys.len() - i,
    {
        if is_risky_key(keys[i].as_str()) {
            assert(risky_key(crate::protocol::texts(keys@)[i as int]));
            return false;
        }
        i += 1;
    }
    true
}

} // verus!
