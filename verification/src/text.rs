//! Small operations on text.

use vstd::prelude::*;
use vstd::string::*;

verus! {

/// A text without the run of `c` that it begins with.
pub open spec fn trim_start_of(text: Seq<char>, c: char) -> Seq<char>
    decreases text.len(),
{
    if text.len() > 0 && text[0] == c {
        trim_start_of(text.drop_first(), c)
    } else {
        text
    }
}

/// A text without the run of `c` that it ends with.
pub open spec fn trim_end_of(text: Seq<char>, c: char) -> Seq<char>
    decreases text.len(),
{
    if text.len() > 0 && text.last() == c {
        trim_end_of(text.drop_last(), c)
    } else {
        text
    }
}

/// A text without the runs of `c` that it begins and ends with.
pub open spec fn trimmed(text: Seq<char>, c: char) -> Seq<char> {
    trim_end_of(trim_start_of(text, c), c)
}

/// A text without its surrounding double quotes.
pub open spec fn unquoted(text: Seq<char>) -> Seq<char> {
    trimmed(text, '"')
}

/// Whether a text reads `on`, in whatever mix of upper and lower case.
pub open spec fn reads_on(text: Seq<char>) -> bool {
    text.len() == 2 && (text[0] == 'o' || text[0] == 'O') && (text[1] == 'n' || text[1] == 'N')
}

/// Whether a text reads `on`, in whatever mix of upper and lower case.
pub fn is_on(text: &str) -> (on: bool)
    ensures
        on == reads_on(text@),
{
    if text.unicode_len() != 2 {
        return false;
    }
    let first = text.get_char(0);
    let second = text.get_char(1);
    (first == 'o' || first == 'O') && (second == 'n' || second == 'N')
}

/// Whether two texts are the same.
pub fn same_text(a: &str, b: &str) -> (same: bool)
    ensures
        same == (a@ == b@),
{
    let n = a.unicode_len();
    if n != b.unicode_len() {
        return false;
    }
    let mut i: usize = 0;
    while i < n
        invariant
            i <= n,
            n == a@.len(),
            n == b@.len(),
            forall|k: int| 0 <= k < i ==> a@[k] == b@[k],
        decreases n - i,
    {
        if a.get_char(i) != b.get_char(i) {
            return false;
        }
        i += 1;
    }
    assert(a@ =~= b@);
    true
}

/// Removes the runs of `c` that a text begins and ends with.
pub fn trim_char(text: &str, c: char) -> (inner: &str)
    ensures
        inner@ == trimmed(text@, c),
{
    let n = text.unicode_len();
    let mut from: usize = 0;
    assert(text@.skip(0) == text@);
    while from < n && text.get_char(from) == c
        invariant
            from <= n,
            n == text@.len(),
            trim_start_of(text@, c) == trim_start_of(text@.skip(from as int), c),
        decreases n - from,
    {
        assert(text@.skip(from as int).drop_first() == text@.skip(from + 1));
        from += 1;
    }
    let ghost rest = text@.skip(from as int);
    assert(trim_start_of(text@, c) == rest);
    let mut to: usize = n;
    while to > from && text.get_char(to - 1) == c
        invariant
            from <= to <= n,
            n == text@.len(),
            rest == text@.skip(from as int),
            trim_end_of(rest, c) == trim_end_of(text@.subrange(from as int, to as int), c),
        decreases to,
    {
        assert(text@.subrange(from as int, to as int).drop_last() == text@.subrange(
            from as int,
            to - 1,
        ));
        to -= 1;
    }
    assert(text@.subrange(from as int, n as int) == rest);
    text.substring_char(from, to)
}

} // verus!
