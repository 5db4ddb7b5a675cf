//! The textual grammar of a namespaced key: `<namespace>:<key>`.
//!
//! Text is modelled as a sequence of characters. A segment runs up to the
//! next delimiter or to the end of the text; there is no escaping.

use vstd::prelude::*;
use vstd::std_specs::iter::IteratorSpec;
use vstd::string::{StrSliceExecFns, StringExecFns};

verus! {

/// The single character that separates the namespace from the key.
pub const DELIMITER: char = ':';

/// A segment is plain when it holds no delimiter.
pub open spec fn is_plain(segment: Seq<char>) -> bool {
    forall|i: int| 0 <= i < segment.len() ==> segment[i] != DELIMITER
}

/// `end` closes the segment that starts at `from`: no delimiter lies in
/// between, and `end` is either a delimiter or the end of the text.
pub open spec fn closes_segment(text: Seq<char>, from: int, end: int) -> bool {
    &&& from <= end <= text.len()
    &&& forall|i: int| from <= i < end ==> text[i] != DELIMITER
    &&& end < text.len() ==> text[end] == DELIMITER
}

/// Where the segment that starts at `from` ends: the position of the first
/// delimiter at or after `from`, or the length of the text where none follows.
pub open spec fn segment_end(text: Seq<char>, from: int) -> int
    decreases text.len() - from,
{
    if from >= text.len() {
        text.len() as int
    } else if text[from] == DELIMITER {
        from
    } else {
        segment_end(text, from + 1)
    }
}

/// `segment_end` closes the segment, for every start inside the text.
pub proof fn lemma_segment_end_closes(text: Seq<char>, from: int)
    requires
        0 <= from <= text.len(),
    ensures
        closes_segment(text, from, segment_end(text, from)),
    decreases text.len() - from,
{
    if from < text.len() && text[from] != DELIMITER {
        lemma_segment_end_closes(text, from + 1);
    }
}

/// Only one position closes a segment.
pub proof fn lemma_closing_is_unique(text: Seq<char>, from: int, end: int)
    requires
        0 <= from,
        closes_segment(text, from, end),
    ensures
        end == segment_end(text, from),
{
    lemma_segment_end_closes(text, from);
    let other = segment_end(text, from);
    if end < other {
        assert(text[end] == DELIMITER);
    } else if other < end {
        assert(text[other] == DELIMITER);
    }
}

/// The text of a key: the namespace, one delimiter, the key.
pub open spec fn render_key(namespace: Seq<char>, key: Seq<char>) -> Seq<char> {
    namespace + seq![DELIMITER] + key
}

/// The namespace segment of a text: what stands before its first delimiter.
pub open spec fn namespace_of(text: Seq<char>) -> Seq<char> {
    text.subrange(0, segment_end(text, 0))
}

/// Where the key segment of a text ends: at its second delimiter, or at the
/// end of the text where there is no second one.
pub open spec fn key_end(text: Seq<char>) -> int {
    segment_end(text, segment_end(text, 0) + 1)
}

/// The key segment of a text: what stands between its first delimiter and
/// its second one, or the end of the text.
pub open spec fn key_of(text: Seq<char>) -> Seq<char> {
    text.subrange(segment_end(text, 0) + 1, key_end(text))
}

/// The two segments that a text is read as: the namespace runs up to the
/// first delimiter, the key from there up to the second delimiter or the end
/// of the text. What follows a second delimiter is dropped. A text without a
/// delimiter has no key segment and is not read at all.
pub open spec fn parse_key(text: Seq<char>) -> Option<(Seq<char>, Seq<char>)> {
    if segment_end(text, 0) >= text.len() {
        None
    } else {
        Some((namespace_of(text), key_of(text)))
    }
}

/// A text is refused exactly when it is plain, that is, holds no delimiter.
pub proof fn lemma_refused_iff_plain(text: Seq<char>)
    ensures
        parse_key(text) is None <==> is_plain(text),
{
    lemma_segment_end_closes(text, 0);
    let first = segment_end(text, 0);
    if first < text.len() {
        assert(text[first] == DELIMITER);
    }
}

/// Both segments that a text is read as are plain.
pub proof fn lemma_read_segments_are_plain(text: Seq<char>)
    requires
        parse_key(text) is Some,
    ensures
        is_plain(namespace_of(text)),
        is_plain(key_of(text)),
{
    let first = segment_end(text, 0);
    let second = segment_end(text, first + 1);
    lemma_segment_end_closes(text, 0);
    lemma_segment_end_closes(text, first + 1);
    let namespace = text.subrange(0, first);
    let key = text.subrange(first + 1, second);
    assert forall|i: int| 0 <= i < namespace.len() implies namespace[i] != DELIMITER by {
        assert(namespace[i] == text[i]);
    }
    assert forall|i: int| 0 <= i < key.len() implies key[i] != DELIMITER by {
        assert(key[i] == text[first + 1 + i]);
    }
}

/// Reading what was written. Where the namespace is plain, the written text
/// is read as that namespace and as the key up to the key's own first
/// delimiter: a delimiter inside the key cuts the key short.
pub proof fn lemma_read_of_written(namespace: Seq<char>, key: Seq<char>)
    requires
        is_plain(namespace),
    ensures
        parse_key(render_key(namespace, key)) == Some(
            (namespace, key.subrange(0, segment_end(key, 0))),
        ),
{
    let text = render_key(namespace, key);
    let first = namespace.len() as int;
    let cut = segment_end(key, 0);
    lemma_segment_end_closes(key, 0);
    assert(text[first] == DELIMITER);
    assert forall|i: int| 0 <= i < first implies text[i] != DELIMITER by {
        assert(text[i] == namespace[i]);
    }
    lemma_closing_is_unique(text, 0, first);
    let second = first + 1 + cut;
    assert forall|i: int| first + 1 <= i < second implies text[i] != DELIMITER by {
        assert(text[i] == key[i - first - 1]);
    }
    if second < text.len() {
        assert(text[second] == key[cut]);
    }
    lemma_closing_is_unique(text, first + 1, second);
    assert(text.subrange(0, first) =~= namespace);
    assert(text.subrange(first + 1, second) =~= key.subrange(0, cut));
}

/// The round trip from a pair through its text: where both segments are
/// plain, the written text is read as the very same pair. Empty segments are
/// plain, so they come back as well.
pub proof fn lemma_written_then_read(namespace: Seq<char>, key: Seq<char>)
    requires
        is_plain(namespace),
        is_plain(key),
    ensures
        parse_key(render_key(namespace, key)) == Some((namespace, key)),
{
    lemma_read_of_written(namespace, key);
    lemma_closing_is_unique(key, 0, key.len() as int);
    assert(key.subrange(0, key.len() as int) =~= key);
}

/// Writing what was read gives the text back up to its second delimiter;
/// what follows that delimiter is lost.
pub proof fn lemma_written_of_read(text: Seq<char>)
    requires
        parse_key(text) is Some,
    ensures
        render_key(namespace_of(text), key_of(text)) == text.subrange(0, key_end(text)),
{
    let first = segment_end(text, 0);
    let second = segment_end(text, first + 1);
    lemma_segment_end_closes(text, 0);
    lemma_segment_end_closes(text, first + 1);
    assert(render_key(text.subrange(0, first), text.subrange(first + 1, second))
        =~= text.subrange(0, second));
}

/// The round trip from a text through its pair: a text with exactly one
/// delimiter is written back as it was.
pub proof fn lemma_read_then_written(text: Seq<char>)
    requires
        parse_key(text) is Some,
        key_end(text) == text.len(),
    ensures
        render_key(namespace_of(text), key_of(text)) == text,
{
    lemma_written_of_read(text);
    assert(text.subrange(0, text.len() as int) =~= text);
}

/// Once a text has been read and written, reading and writing it again
/// changes nothing: what was read from a text is read again from its own
/// written form.
pub proof fn lemma_reading_is_stable(text: Seq<char>)
    requires
        parse_key(text) is Some,
    ensures
        parse_key(render_key(namespace_of(text), key_of(text))) == parse_key(text),
{
    lemma_read_segments_are_plain(text);
    lemma_written_then_read(namespace_of(text), key_of(text));
}

/// Scans `text` once and returns where its first two segments end, as
/// character positions; `None` where the text holds no delimiter.
pub fn split_points(text: &str) -> (points: Option<(usize, usize)>)
    ensures
        match points {
            Some((first, second)) => {
                &&& first < text@.len()
                &&& first == segment_end(text@, 0)
                &&& second == segment_end(text@, first + 1)
            },
            None => segment_end(text@, 0) == text@.len(),
        },
{
    let len: usize = text.unicode_len();
    let mut chars = text.chars();
    let mut index: usize = 0;
    let mut first: Option<usize> = None;
    let mut second: Option<usize> = None;
    while second.is_none() && index < len
        invariant
            len == text@.len(),
            index <= len,
            chars.obeys_prophetic_iter_laws(),
            chars.remaining() == text@.subrange(index as int, len as int),
            second is Some ==> first is Some,
            match first {
                None => forall|i: int| 0 <= i < index ==> text@[i] != DELIMITER,
                Some(f) => {
                    &&& f < index
                    &&& closes_segment(text@, 0, f as int)
                    &&& match second {
                        None => forall|i: int| f < i < index ==> text@[i] != DELIMITER,
                        Some(g) => g < index && closes_segment(text@, f + 1, g as int),
                    }
                },
            },
        decreases len - index,
    {
        let next = chars.next();
        assert(next == Some(text@[index as int]));
        assert(chars.remaining() == text@.subrange(index + 1, len as int));
        match next {
            Some(c) => {
                if c == DELIMITER {
                    if first.is_none() {
                        first = Some(index);
                    } else {
                        second = Some(index);
                    }
                }
            },
            None => {},
        }
        index = index + 1;
    }
    match first {
        None => {
            proof {
                lemma_closing_is_unique(text@, 0, len as int);
            }
            None
        },
        Some(f) => {
            let g: usize = match second {
                Some(g) => g,
                None => len,
            };
            proof {
                lemma_closing_is_unique(text@, 0, f as int);
                lemma_closing_is_unique(text@, f + 1, g as int);
            }
            Some((f, g))
        },
    }
}

/// Reads `text` as a key and hands out its two segments, borrowed from the
/// text; `None` where the text holds no delimiter.
pub fn split(text: &str) -> (segments: Option<(&str, &str)>)
    ensures
        match segments {
            Some((namespace, key)) => parse_key(text@) == Some((namespace@, key@)),
            None => parse_key(text@) is None,
        },
{
    match split_points(text) {
        None => None,
        Some((first, second)) => {
            proof {
                lemma_segment_end_closes(text@, first + 1);
            }
            Some((text.substring_char(0, first), text.substring_char(first + 1, second)))
        },
    }
}

/// Writes a key out: the namespace, one delimiter, the key.
pub fn render(namespace: &str, key: &str) -> (text: String)
    ensures
        text@ == render_key(namespace@, key@),
{
    let mut text = namespace.to_owned();
    proof {
        reveal_strlit(":");
        assert(":"@ =~= seq![DELIMITER]);
    }
    text.append(":");
    text.append(key);
    text
}

/// Whether two texts hold the same characters.
pub fn same_text(left: &str, right: &str) -> (same: bool)
    ensures
        same == (left@ == right@),
{
    let len: usize = left.unicode_len();
    if right.unicode_len() != len {
        return false;
    }
    let mut left_chars = left.chars();
    let mut right_chars = right.chars();
    let mut index: usize = 0;
    while index < len
        invariant
            len == left@.len(),
            len == right@.len(),
            index <= len,
            left_chars.obeys_prophetic_iter_laws(),
            right_chars.obeys_prophetic_iter_laws(),
            left_chars.remaining() == left@.subrange(index as int, len as int),
            right_chars.remaining() == right@.subrange(index as int, len as int),
            forall|i: int| 0 <= i < index ==> left@[i] == right@[i],
        decreases len - index,
    {
        let a = left_chars.next();
        let b = right_chars.next();
        assert(a == Some(left@[index as int]));
        assert(b == Some(right@[index as int]));
        assert(left_chars.remaining() == left@.subrange(index + 1, len as int));
        assert(right_chars.remaining() == right@.subrange(index + 1, len as int));
        if a != b {
            return false;
        }
        index = index + 1;
    }
    assert(left@ =~= right@);
    true
}

} // verus!
