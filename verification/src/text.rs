//! Texts as sequences of characters: finding a separator, splitting at
//! it, and reading decimal numbers.

use vstd::prelude::*;
use vstd::string::StrSliceExecFns;

verus! {

/// The position of the first `c` in a text; its length where it has none.
pub open spec fn first_of(text: Seq<char>, c: char) -> nat
    decreases text.len(),
{
    if text.len() == 0 || text[0] == c {
        0
    } else {
        1 + first_of(text.drop_first(), c)
    }
}

/// The first `c` of a text is where no earlier character is `c` and the
/// text ends or has `c`.
pub proof fn lemma_first_of(text: Seq<char>, c: char, i: nat)
    requires
        i <= text.len(),
        forall|k: int| 0 <= k < i ==> text[k] != c,
        i == text.len() || text[i as int] == c,
    ensures
        first_of(text, c) == i,
    decreases text.len(),
{
    if i > 0 {
        let rest = text.drop_first();
        assert(forall|k: int| 0 <= k < i - 1 ==> rest[k] != c);
        lemma_first_of(rest, c, (i - 1) as nat);
    }
}

/// The first `c` lies inside the text or at its end.
pub proof fn lemma_first_of_bound(text: Seq<char>, c: char)
    ensures
        first_of(text, c) <= text.len(),
    decreases text.len(),
{
    if text.len() > 0 && text[0] != c {
        lemma_first_of_bound(text.drop_first(), c);
    }
}

/// The parts of a text between the occurrences of `sep`. A text without
/// `sep` is its only part; a text of `n` separators has `n + 1` parts,
/// empty ones among them.
pub open spec fn fields(text: Seq<char>, sep: char) -> Seq<Seq<char>>
    decreases text.len(),
    via fields_decreases
{
    let i = first_of(text, sep);
    if i >= text.len() {
        seq![text]
    } else {
        seq![text.take(i as int)] + fields(text.skip(i as int + 1), sep)
    }
}

#[via_fn]
proof fn fields_decreases(text: Seq<char>, sep: char) {
    lemma_first_of_bound(text, sep);
}

/// The characters of the texts of a sequence.
pub open spec fn texts(parts: Seq<&str>) -> Seq<Seq<char>> {
    Seq::new(parts.len(), |i: int| parts[i]@)
}

/// The position of the first `c` at or after `from`; the length of the
/// text where there is none.
pub fn find_from(text: &str, from: usize, c: char) -> (at: usize)
    requires
        from <= text@.len(),
    ensures
        from <= at <= text@.len(),
        at - from == first_of(text@.skip(from as int), c),
{
    let len = text.unicode_len();
    let mut i: usize = from;
    while i < len && text.get_char(i) != c
        invariant
            from <= i <= len,
            len == text@.len(),
            forall|k: int| from <= k < i ==> text@[k] != c,
        decreases len - i,
    {
        i = i + 1;
    }
    proof {
        lemma_first_of(text@.skip(from as int), c, (i - from) as nat);
    }
    i
}

/// The parts of a text between the occurrences of `sep`.
pub fn split_fields<'a>(text: &'a str, sep: char) -> (parts: Vec<&'a str>)
    ensures
        texts(parts@) == fields(text@, sep),
        parts@.len() >= 1,
{
    let len = text.unicode_len();
    let mut parts: Vec<&'a str> = Vec::new();
    let mut start: usize = 0;
    assert(text@.skip(0) =~= text@);
    loop
        invariant_except_break
            fields(text@, sep) == texts(parts@) + fields(text@.skip(start as int), sep),
        invariant
            start <= len,
            len == text@.len(),
        ensures
            texts(parts@) == fields(text@, sep),
            parts@.len() >= 1,
        decreases len - start,
    {
        let ghost done = texts(parts@);
        let ghost rest = text@.skip(start as int);
        let at = find_from(text, start, sep);
        let part = text.substring_char(start, at);
        parts.push(part);
        assert(part@ =~= rest.take(at - start));
        if at >= len {
            break ;
        }
        proof {
            assert(fields(rest, sep) == seq![rest.take(at - start)] + fields(
                rest.skip(at - start + 1),
                sep,
            ));
            assert(rest.skip(at - start + 1) =~= text@.skip(at + 1));
            assert(done + (seq![part@] + fields(text@.skip(at + 1), sep)) =~= (done + seq![
                part@,
            ]) + fields(text@.skip(at + 1), sep));
        }
        start = at + 1;
    }
    parts
}

/// The value of a decimal digit; nothing for any other character.
pub open spec fn digit_value(c: char) -> Option<nat> {
    if c == '0' {
        Some(0)
    } else if c == '1' {
        Some(1)
    } else if c == '2' {
        Some(2)
    } else if c == '3' {
        Some(3)
    } else if c == '4' {
        Some(4)
    } else if c == '5' {
        Some(5)
    } else if c == '6' {
        Some(6)
    } else if c == '7' {
        Some(7)
    } else if c == '8' {
        Some(8)
    } else if c == '9' {
        Some(9)
    } else {
        None
    }
}

/// Whether every character of a text is a decimal digit.
pub open spec fn all_digits(text: Seq<char>) -> bool {
    forall|i: int| 0 <= i < text.len() ==> digit_value(#[trigger] text[i]) is Some
}

/// The number that a text of digits denotes.
pub open spec fn digits_value(text: Seq<char>) -> nat
    decreases text.len(),
{
    if text.len() == 0 {
        0
    } else {
        digits_value(text.drop_last()) * 10 + match digit_value(text.last()) {
            Some(d) => d,
            None => 0,
        }
    }
}

/// The number that a text denotes as a `u32`: digits, after at most one
/// plus sign, whose value fits. Nothing for any other text.
pub open spec fn parsed_u32(text: Seq<char>) -> Option<u32> {
    let body = if text.len() > 0 && text[0] == '+' {
        text.skip(1)
    } else {
        text
    };
    if body.len() > 0 && all_digits(body) && digits_value(body) <= u32::MAX {
        Some(digits_value(body) as u32)
    } else {
        None
    }
}

/// A text of digits denotes at least what any of its beginnings denotes.
pub proof fn lemma_digits_grow(text: Seq<char>, i: int)
    requires
        0 <= i <= text.len(),
    ensures
        digits_value(text.take(i)) <= digits_value(text),
    decreases text.len() - i,
{
    if i < text.len() {
        lemma_digits_grow(text, i + 1);
        assert(text.take(i + 1).drop_last() =~= text.take(i));
    } else {
        assert(text.take(i) =~= text);
    }
}

/// The value of a decimal digit.
pub fn digit_of(c: char) -> (value: Option<u32>)
    ensures
        match value {
            Some(d) => digit_value(c) == Some(d as nat),
            None => digit_value(c) is None,
        },
{
    if c == '0' {
        Some(0)
    } else if c == '1' {
        Some(1)
    } else if c == '2' {
        Some(2)
    } else if c == '3' {
        Some(3)
    } else if c == '4' {
        Some(4)
    } else if c == '5' {
        Some(5)
    } else if c == '6' {
        Some(6)
    } else if c == '7' {
        Some(7)
    } else if c == '8' {
        Some(8)
    } else if c == '9' {
        Some(9)
    } else {
        None
    }
}

/// Reads a decimal number: digits, after at most one plus sign, whose
/// value fits a `u32`.
pub fn parse_u32(text: &str) -> (value: Option<u32>)
    ensures
        value == parsed_u32(text@),
{
    let len = text.unicode_len();
    let start: usize = if len > 0 && text.get_char(0) == '+' { 1 } else { 0 };
    let ghost body = if text@.len() > 0 && text@[0] == '+' {
        text@.skip(1)
    } else {
        text@
    };
    if start >= len {
        return None;
    }
    let mut acc: u64 = 0;
    let mut i: usize = start;
    while i < len
        invariant
            start <= i <= len,
            len == text@.len(),
            body == text@.skip(start as int),
            body == (if text@.len() > 0 && text@[0] == '+' {
                text@.skip(1)
            } else {
                text@
            }),
            start < len,
            acc <= u32::MAX,
            acc == digits_value(body.take(i - start)),
            all_digits(body.take(i - start)),
        decreases len - i,
    {
        let ghost seen = body.take(i - start);
        let ghost next = body.take(i - start + 1);
        assert(next.drop_last() =~= seen);
        match digit_of(text.get_char(i)) {
            None => {
                assert(body[i - start] == text@[i as int]);
                return None;
            },
            Some(d) => {
                let grown: u64 = acc * 10 + d as u64;
                if grown > u32::MAX as u64 {
                    proof {
                        lemma_digits_grow(body, i - start + 1);
                    }
                    return None;
                }
                acc = grown;
                assert(forall|k: int| 0 <= k < next.len() ==> digit_value(#[trigger] next[k]) is Some);
            },
        }
        i = i + 1;
    }
    assert(body.take(len - start) =~= body);
    Some(acc as u32)
}

} // verus!
