//! Operations on text, stated over sequences of characters.

use vstd::prelude::*;
use vstd::string::*;

verus! {

/// Whether two texts hold the same characters.
pub fn same_text(a: &str, b: &str) -> (same: bool)
    ensures
        same == (a@ == b@),
{
    let n = a.unicode_len();
    if b.unicode_len() != n {
        return false;
    }
    let mut i: usize = 0;
    while i < n
        invariant
            i <= n,
            n == a@.len(),
            n == b@.len(),
            forall|k: int| 0 <= k < i ==> a@[k] == b@[k],
        decreases n - i,
    {
        if a.get_char(i) != b.get_char(i) {
            return false;
        }
        i += 1;
    }
    assert(a@ =~= b@);
    true
}

/// Whether `text` begins with `prefix`.
pub fn starts_with(text: &str, prefix: &str) -> (found: bool)
    ensures
        found == prefix@.is_prefix_of(text@),
{
    let n = prefix.unicode_len();
    if text.unicode_len() < n {
        return false;
    }
    let mut i: usize = 0;
    while i < n
        invariant
            i <= n,
            n == prefix@.len(),
            n <= text@.len(),
            forall|k: int| 0 <= k < i ==> text@[k] == prefix@[k],
        decreases n - i,
    {
        if text.get_char(i) != prefix.get_char(i) {
            return false;
        }
        i += 1;
    }
    assert(prefix@ =~= text@.subrange(0, n as int));
    true
}

/// The text that follows the first `count` characters of `text`.
pub(crate) fn skip_chars(text: &str, count: usize) -> (rest: &str)
    requires
        count <= text@.len(),
    ensures
        rest@ == text@.skip(count as int),
{
    let n = text.unicode_len();
    text.substring_char(count, n)
}

/// `head` followed by `tail`.
pub fn concat(head: &str, tail: &str) -> (joined: String)
    ensures
        joined@ == head@ + tail@,
{
    String::from_str(head).concat(tail)
}

/// The position of the first occurrence of `target` in `text`, if there is one.
pub fn find_char(text: &str, target: char) -> (at: Option<usize>)
    ensures
        match at {
            Some(i) => text@.index_of_first(target) == Some(i as int),
            None => text@.index_of_first(target) is None,
        },
{
    proof {
        text@.index_of_first_ensures(target);
    }
    let n = text.unicode_len();
    let mut i: usize = 0;
    for c in it: text.chars()
        invariant
            i == it.index(),
            it.seq() == text@,
            n == text@.len(),
            forall|k: int| 0 <= k < i ==> text@[k] != target,
    {
        if c == target {
            proof {
                assert(text@[i as int] == target);
                text@.index_of_first_ensures(target);
            }
            return Some(i);
        }
        i += 1;
    }
    None
}

/// The position of the last occurrence of `target` in `text`, if there is one.
pub fn find_last_char(text: &str, target: char) -> (at: Option<usize>)
    ensures
        match at {
            Some(i) => text@.index_of_last(target) == Some(i as int),
            None => text@.index_of_last(target) is None,
        },
{
    let n = text.unicode_len();
    let mut at: Option<usize> = None;
    let mut i: usize = 0;
    for c in it: text.chars()
        invariant
            i == it.index(),
            it.seq() == text@,
            n == text@.len(),
            at matches Some(found) ==> found < i && text@[found as int] == target,
            forall|k: int|
                (match at {
                    Some(found) => found < k,
                    None => 0 <= k,
                }) && k < i ==> text@[k] != target,
    {
        if c == target {
            at = Some(i);
        }
        i += 1;
    }
    proof {
        text@.index_of_last_ensures(target);
        if let Some(found) = at {
            assert(text@.contains(target));
        }
    }
    at
}

/// The lines of a text put together, with a line feed between each two.
pub open spec fn joined(lines: Seq<Seq<char>>) -> Seq<char>
    decreases lines.len(),
{
    if lines.len() == 0 {
        Seq::empty()
    } else if lines.len() == 1 {
        lines[0]
    } else {
        joined(lines.drop_last()) + seq!['\n'] + lines.last()
    }
}

/// One more line at the end of a joined text: alone if it is the first,
/// behind a line feed otherwise.
pub proof fn lemma_joined_push(lines: Seq<Seq<char>>, line: Seq<char>)
    ensures
        joined(lines.push(line)) == if lines.len() == 0 {
            line
        } else {
            joined(lines) + seq!['\n'] + line
        },
{
    assert(lines.push(line).drop_last() =~= lines);
}

/// Joins lines into one text, with a line feed between each two.
pub fn join_lines(lines: &Vec<&str>) -> (text: String)
    ensures
        text@ == joined(lines.deep_view()),
{
    let mut text = String::new();
    let n = lines.len();
    let mut i: usize = 0;
    while i < n
        invariant
            i <= n,
            n == lines.len(),
            text@ == joined(lines.deep_view().take(i as int)),
        decreases n - i,
    {
        proof {
            reveal_strlit("\n");
            assert("\n"@ =~= seq!['\n']);
            let before = lines.deep_view().take(i as int);
            assert(lines.deep_view().take(i + 1) =~= before.push(lines[i as int]@));
            lemma_joined_push(before, lines[i as int]@);
        }
        if i > 0 {
            text.append("\n");
        }
        text.append(lines[i]);
        i += 1;
    }
    assert(lines.deep_view().take(n as int) =~= lines.deep_view());
    text
}

/// Whether a character is white space: what `char::is_whitespace` returns
/// for it.
pub uninterp spec fn is_white_space(c: char) -> bool;

/// `char::is_whitespace` tells whether a character has the Unicode property
/// White_Space. The property is a fixed table of the Unicode standard; it is
/// not written out here, only named.
pub assume_specification[ char::is_whitespace ](c: char) -> (white: bool)
    ensures
        white == is_white_space(c),
;

/// `String::push` appends one character to the end of the text.
pub assume_specification[ String::push ](text: &mut String, ch: char)
    ensures
        final(text)@ == old(text)@.push(ch),
;

/// `String::pop` removes the last character of the text and returns it, or
/// returns `None` and leaves the text as it is where the text is empty.
pub assume_specification[ String::pop ](text: &mut String) -> (last: Option<char>)
    ensures
        old(text)@.len() == 0 ==> last is None && final(text)@ == old(text)@,
        old(text)@.len() > 0 ==> last == Some(old(text)@.last()) && final(text)@ == old(
            text,
        )@.drop_last(),
;

/// A text without the white space at its beginning.
pub open spec fn trimmed_start(text: Seq<char>) -> Seq<char>
    decreases text.len(),
{
    if text.len() > 0 && is_white_space(text.first()) {
        trimmed_start(text.drop_first())
    } else {
        text
    }
}

/// A text without the white space at its end.
pub open spec fn trimmed_end(text: Seq<char>) -> Seq<char>
    decreases text.len(),
{
    if text.len() > 0 && is_white_space(text.last()) {
        trimmed_end(text.drop_last())
    } else {
        text
    }
}

/// A text without the white space at its beginning and at its end. White
/// space inside the text stays.
pub open spec fn trimmed(text: Seq<char>) -> Seq<char> {
    trimmed_end(trimmed_start(text))
}

/// Trimming at the beginning drops the characters before the first that is
/// not white space.
pub proof fn lemma_trimmed_start(text: Seq<char>, start: int)
    requires
        0 <= start <= text.len(),
        forall|k: int| 0 <= k < start ==> is_white_space(text[k]),
        start < text.len() ==> !is_white_space(text[start]),
    ensures
        trimmed_start(text) == text.skip(start),
    decreases start,
{
    if start == 0 {
        assert(text.skip(0) =~= text);
    } else {
        assert(is_white_space(text[0]));
        let rest = text.drop_first();
        assert forall|k: int| 0 <= k < start - 1 implies is_white_space(rest[k]) by {
            assert(rest[k] == text[k + 1]);
        }
        lemma_trimmed_start(rest, start - 1);
        assert(rest.skip(start - 1) =~= text.skip(start));
    }
}

/// Trimming at the end drops the characters behind the last that is not
/// white space.
pub proof fn lemma_trimmed_end(text: Seq<char>, end: int)
    requires
        0 <= end <= text.len(),
        forall|k: int| end <= k < text.len() ==> is_white_space(text[k]),
        end > 0 ==> !is_white_space(text[end - 1]),
    ensures
        trimmed_end(text) == text.take(end),
    decreases text.len() - end,
{
    if end == text.len() {
        assert(text.take(end) =~= text);
    } else {
        assert(is_white_space(text[text.len() - 1]));
        let rest = text.drop_last();
        lemma_trimmed_end(rest, end);
        assert(rest.take(end) =~= text.take(end));
    }
}

/// What trimming leaves is not trimmed further.
pub proof fn lemma_trimmed_is_trimmed(text: Seq<char>)
    ensures
        trimmed(trimmed(text)) == trimmed(text),
        trimmed(text).len() > 0 ==> !is_white_space(trimmed(text).first()) && !is_white_space(
            trimmed(text).last(),
        ),
{
    lemma_trimmed_start_shape(text);
    let inner = trimmed_start(text);
    lemma_trimmed_end_shape(inner);
    let kept = trimmed_end(inner);
    if kept.len() > 0 {
        assert(inner.len() > 0);
        assert(kept.is_prefix_of(inner));
        assert(kept.first() == inner.first());
    }
}

/// What is left after trimming the beginning is the end of the text and
/// does not begin with white space.
proof fn lemma_trimmed_start_shape(text: Seq<char>)
    ensures
        trimmed_start(text).len() > 0 ==> !is_white_space(trimmed_start(text).first()),
        trimmed_start(trimmed_start(text)) == trimmed_start(text),
    decreases text.len(),
{
    if text.len() > 0 && is_white_space(text.first()) {
        lemma_trimmed_start_shape(text.drop_first());
    }
}

/// What is left after trimming the end is the beginning of the text and does
/// not end with white space.
proof fn lemma_trimmed_end_shape(text: Seq<char>)
    ensures
        trimmed_end(text).is_prefix_of(text),
        trimmed_end(text).len() > 0 ==> !is_white_space(trimmed_end(text).last()),
        trimmed_end(trimmed_end(text)) == trimmed_end(text),
    decreases text.len(),
{
    if text.len() > 0 && is_white_space(text.last()) {
        lemma_trimmed_end_shape(text.drop_last());
        let kept = trimmed_end(text.drop_last());
        assert(kept =~= text.subrange(0, kept.len() as int));
    } else {
        assert(text =~= text.subrange(0, text.len() as int));
    }
}

/// The text without the white space at its beginning and at its end.
pub fn trim(text: &str) -> (kept: &str)
    ensures
        kept@ == trimmed(text@),
{
    let n = text.unicode_len();
    let mut start: usize = 0;
    let mut end: usize = 0;
    let mut seen = false;
    let mut i: usize = 0;
    for c in it: text.chars()
        invariant
            i == it.index(),
            it.seq() == text@,
            n == text@.len(),
            !seen ==> forall|k: int| 0 <= k < i ==> is_white_space(text@[k]),
            seen ==> start < end <= i,
            seen ==> forall|k: int| 0 <= k < start ==> is_white_space(text@[k]),
            seen ==> !is_white_space(text@[start as int]) && !is_white_space(text@[end - 1]),
            seen ==> forall|k: int| end <= k < i ==> is_white_space(text@[k]),
    {
        if !c.is_whitespace() {
            if !seen {
                start = i;
                seen = true;
            }
            end = i + 1;
        }
        i += 1;
    }
    if !seen {
        start = n;
        end = n;
    }
    proof {
        lemma_trimmed_start(text@, start as int);
        let inner = text@.skip(start as int);
        assert forall|k: int| end - start <= k < inner.len() implies is_white_space(inner[k]) by {
            assert(inner[k] == text@[k + start]);
        }
        lemma_trimmed_end(inner, end - start);
        assert(inner.take(end - start) =~= text@.subrange(start as int, end as int));
    }
    text.substring_char(start, end)
}

} // verus!
