//! Finding a byte in a text.

use vstd::prelude::*;

verus! {

/// The index of the first `byte` at or after `from`, or the length of the
/// text where there is none.
pub open spec fn first_at(text: Seq<u8>, byte: u8, from: int) -> int
    decreases text.len() - from,
{
    if from >= text.len() {
        text.len() as int
    } else if text[from] == byte {
        from
    } else {
        first_at(text, byte, from + 1)
    }
}

/// The index of the first `byte` from `from` up to `to`, or `to` where there
/// is none.
pub open spec fn first_within(text: Seq<u8>, byte: u8, from: int, to: int) -> int
    decreases to - from,
{
    if from >= to {
        to
    } else if text[from] == byte {
        from
    } else {
        first_within(text, byte, from + 1, to)
    }
}

/// The part of a text that is the piece number `n`, counted from zero, of the
/// pieces that `sep` cuts the text from `from` up to `to` into: where it
/// begins and where it ends. `None` where there are not that many pieces.
pub open spec fn piece_range(text: Seq<u8>, sep: u8, from: int, to: int, n: nat) -> Option<
    (int, int),
>
    decreases n,
{
    let end = first_within(text, sep, from, to);
    if n == 0 {
        Some((from, end))
    } else if end >= to {
        None
    } else {
        piece_range(text, sep, end + 1, to, (n - 1) as nat)
    }
}

/// The piece number `n`, counted from zero, of the pieces that `sep` cuts
/// the text from `from` up to `to` into; empty where there are not that many.
pub open spec fn piece(text: Seq<u8>, sep: u8, from: int, to: int, n: nat) -> Seq<u8> {
    match piece_range(text, sep, from, to, n) {
        Some((begin, end)) => text.subrange(begin, end),
        None => Seq::empty(),
    }
}

/// The index of the last `byte` before `end`, or -1 where there is none.
pub open spec fn last_before(text: Seq<u8>, byte: u8, end: int) -> int
    decreases end,
{
    if end <= 0 {
        -1
    } else if text[end - 1] == byte {
        end - 1
    } else {
        last_before(text, byte, end - 1)
    }
}

/// The first `byte` at or after `from` is the one at `at` if no byte between
/// the two is one.
pub proof fn lemma_first_at(text: Seq<u8>, byte: u8, from: int, at: int)
    requires
        0 <= from <= at <= text.len(),
        forall|i: int| from <= i < at ==> #[trigger] text[i] != byte,
        at < text.len() ==> text[at] == byte,
    ensures
        first_at(text, byte, from) == at,
    decreases at - from,
{
    if from < at {
        assert(text[from] != byte);
        lemma_first_at(text, byte, from + 1, at);
    }
}

/// Finds the first `byte` at or after `from`.
pub fn find_first(text: &[u8], byte: u8, from: usize) -> (at: usize)
    requires
        from <= text@.len(),
    ensures
        at == first_at(text@, byte, from as int),
        from <= at <= text@.len(),
        at < text@.len() ==> text@[at as int] == byte,
{
    let mut i = from;
    while i < text.len() && text[i] != byte
        invariant
            from <= i <= text@.len(),
            first_at(text@, byte, from as int) == first_at(text@, byte, i as int),
        decreases text@.len() - i,
    {
        i += 1;
    }
    i
}

/// Finds the first `byte` from `from` up to `to`.
pub fn find_within(text: &[u8], byte: u8, from: usize, to: usize) -> (at: usize)
    requires
        from <= to <= text@.len(),
    ensures
        at == first_within(text@, byte, from as int, to as int),
        from <= at <= to,
{
    let mut i = from;
    while i < to && text[i] != byte
        invariant
            from <= i <= to <= text@.len(),
            first_within(text@, byte, from as int, to as int) == first_within(
                text@,
                byte,
                i as int,
                to as int,
            ),
        decreases to - i,
    {
        i += 1;
    }
    i
}

/// Finds the piece number `n`, counted from zero, of the pieces that `sep`
/// cuts the text from `from` up to `to` into.
pub fn find_piece(text: &[u8], sep: u8, from: usize, to: usize, n: usize) -> (range: Option<
    (usize, usize),
>)
    requires
        from <= to <= text@.len(),
    ensures
        match range {
            Some((begin, end)) => piece_range(text@, sep, from as int, to as int, n as nat)
                == Some((begin as int, end as int)) && from <= begin <= end <= to,
            None => piece_range(text@, sep, from as int, to as int, n as nat).is_none(),
        },
{
    let mut begin = from;
    let mut left = n;
    loop
        invariant
            from <= begin <= to <= text@.len(),
            piece_range(text@, sep, from as int, to as int, n as nat) == piece_range(
                text@,
                sep,
                begin as int,
                to as int,
                left as nat,
            ),
        decreases left,
    {
        let end = find_within(text, sep, begin, to);
        if left == 0 {
            return Some((begin, end));
        }
        if end >= to {
            return None;
        }
        begin = end + 1;
        left -= 1;
    }
}

/// Finds the last `byte` before `end`.
pub fn find_last(text: &[u8], byte: u8, end: usize) -> (at: Option<usize>)
    requires
        end <= text@.len(),
    ensures
        match at {
            Some(i) => i == last_before(text@, byte, end as int) && i < end,
            None => last_before(text@, byte, end as int) == -1,
        },
{
    let mut i = end;
    while i > 0
        invariant
            i <= end <= text@.len(),
            last_before(text@, byte, end as int) == last_before(text@, byte, i as int),
        decreases i,
    {
        if text[i - 1] == byte {
            return Some(i - 1);
        }
        i -= 1;
    }
    None
}

} // verus!
