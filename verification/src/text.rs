//! Text handling for what users type: surrounding whitespace and lists.

use vstd::prelude::*;
use vstd::string::*;

verus! {

/// Whether a character is white space: one of the 25 code points that Unicode
/// marks as `White_Space`.
pub open spec fn is_space(c: char) -> bool {
    let code = c as u32;
    ||| 0x09 <= code <= 0x0D
    ||| code == 0x20
    ||| code == 0x85
    ||| code == 0xA0
    ||| code == 0x1680
    ||| 0x2000 <= code <= 0x200A
    ||| code == 0x2028
    ||| code == 0x2029
    ||| code == 0x202F
    ||| code == 0x205F
    ||| code == 0x3000
}

/// How many characters of white space a text begins with.
pub open spec fn leading_spaces(text: Seq<char>) -> nat
    decreases text.len(),
{
    if text.len() > 0 && is_space(text[0]) {
        1 + leading_spaces(text.skip(1))
    } else {
        0
    }
}

/// How many characters of white space a text ends with.
pub open spec fn trailing_spaces(text: Seq<char>) -> nat
    decreases text.len(),
{
    if text.len() > 0 && is_space(text.last()) {
        1 + trailing_spaces(text.drop_last())
    } else {
        0
    }
}

/// A text without the white space around it.
pub open spec fn trimmed(text: Seq<char>) -> Seq<char> {
    let rest = text.skip(leading_spaces(text) as int);
    rest.take(rest.len() - trailing_spaces(rest))
}

/// Whether a text has white space at neither end.
pub open spec fn is_tight(text: Seq<char>) -> bool {
    text.len() > 0 ==> !is_space(text[0]) && !is_space(text.last())
}

/// Tells whether a character is white space.
pub fn is_space_char(c: char) -> (space: bool)
    ensures
        space == is_space(c),
{
    let code: u32 = c as u32;
    (0x09 <= code && code <= 0x0D) || code == 0x20 || code == 0x85 || code == 0xA0
        || code == 0x1680 || (0x2000 <= code && code <= 0x200A) || code == 0x2028
        || code == 0x2029 || code == 0x202F || code == 0x205F || code == 0x3000
}

/// The leading white space is as long as the first run of white space.
pub proof fn lemma_leading_spaces(text: Seq<char>, count: int)
    requires
        0 <= count <= text.len(),
        forall|i: int| 0 <= i < count ==> is_space(#[trigger] text[i]),
        count < text.len() ==> !is_space(text[count]),
    ensures
        leading_spaces(text) == count,
    decreases count,
{
    if count > 0 {
        let rest = text.skip(1);
        assert(is_space(text[0]));
        assert forall|i: int| 0 <= i < count - 1 implies is_space(#[trigger] rest[i]) by {
            assert(rest[i] == text[i + 1]);
        }
        if count - 1 < rest.len() {
            assert(rest[count - 1] == text[count]);
        }
        lemma_leading_spaces(rest, count - 1);
    }
}

/// The trailing white space is as long as the last run of white space.
pub proof fn lemma_trailing_spaces(text: Seq<char>, from: int)
    requires
        0 <= from <= text.len(),
        forall|i: int| from <= i < text.len() ==> is_space(#[trigger] text[i]),
        from > 0 ==> !is_space(text[from - 1]),
    ensures
        trailing_spaces(text) == text.len() - from,
    decreases text.len() - from,
{
    if from < text.len() {
        let rest = text.drop_last();
        assert(is_space(text.last()));
        assert forall|i: int| from <= i < rest.len() implies is_space(#[trigger] rest[i]) by {
            assert(rest[i] == text[i]);
        }
        if from > 0 {
            assert(rest[from - 1] == text[from - 1]);
        }
        lemma_trailing_spaces(rest, from);
    }
}

/// The leading white space of a text is a run of white space that ends at
/// the end of the text or before a character that is none.
pub proof fn lemma_leading_spaces_is_a_run(text: Seq<char>)
    ensures
        leading_spaces(text) <= text.len(),
        forall|i: int| 0 <= i < leading_spaces(text) ==> is_space(#[trigger] text[i]),
        leading_spaces(text) < text.len() ==> !is_space(text[leading_spaces(text) as int]),
    decreases text.len(),
{
    if text.len() > 0 && is_space(text[0]) {
        let rest = text.skip(1);
        lemma_leading_spaces_is_a_run(rest);
        assert forall|i: int| 0 <= i < leading_spaces(text) implies is_space(
            #[trigger] text[i],
        ) by {
            if i > 0 {
                assert(text[i] == rest[i - 1]);
            }
        }
        if leading_spaces(text) < text.len() {
            assert(text[leading_spaces(text) as int] == rest[leading_spaces(rest) as int]);
        }
    }
}

/// The trailing white space of a text is a run of white space that begins
/// at the start of the text or after a character that is none.
pub proof fn lemma_trailing_spaces_is_a_run(text: Seq<char>)
    ensures
        trailing_spaces(text) <= text.len(),
        forall|i: int|
            text.len() - trailing_spaces(text) <= i < text.len() ==> is_space(#[trigger] text[i]),
        trailing_spaces(text) < text.len() ==> !is_space(
            text[text.len() - trailing_spaces(text) - 1],
        ),
    decreases text.len(),
{
    if text.len() > 0 && is_space(text.last()) {
        let rest = text.drop_last();
        lemma_trailing_spaces_is_a_run(rest);
        assert forall|i: int|
            text.len() - trailing_spaces(text) <= i < text.len() implies is_space(
            #[trigger] text[i],
        ) by {
            if i < rest.len() {
                assert(text[i] == rest[i]);
            }
        }
        if trailing_spaces(text) < text.len() {
            assert(text[text.len() - trailing_spaces(text) - 1] == rest[rest.len()
                - trailing_spaces(rest) - 1]);
        }
    }
}

/// Trimming keeps a stretch of the text, removes white space only, and
/// leaves white space at neither end.
pub proof fn lemma_trimmed_is_tight(text: Seq<char>)
    ensures
        is_tight(trimmed(text)),
        exists|from: int, to: int|
            0 <= from <= to <= text.len() && trimmed(text) == #[trigger] text.subrange(from, to)
                && (forall|i: int| 0 <= i < from ==> is_space(#[trigger] text[i])) && (forall|
                i: int,
            | to <= i < text.len() ==> is_space(#[trigger] text[i])),
{
    lemma_leading_spaces_is_a_run(text);
    let from = leading_spaces(text) as int;
    let rest = text.skip(from);
    lemma_trailing_spaces_is_a_run(rest);
    let to = text.len() - trailing_spaces(rest);
    assert(trimmed(text) =~= text.subrange(from, to));
    assert forall|i: int| to <= i < text.len() implies is_space(#[trigger] text[i]) by {
        assert(text[i] == rest[i - from]);
    }
    let inner = trimmed(text);
    if inner.len() > 0 {
        assert(inner[0] == text[from]);
        assert(inner.last() == rest[rest.len() - trailing_spaces(rest) - 1]);
    }
}

/// Removes the white space around a text.
pub fn trim(text: &str) -> (inner: &str)
    ensures
        inner@ == trimmed(text@),
{
    let len = text.unicode_len();
    let mut start: usize = 0;
    while start < len
        invariant
            len == text@.len(),
            start <= len,
            forall|i: int| 0 <= i < start ==> is_space(#[trigger] text@[i]),
        ensures
            start <= len,
            forall|i: int| 0 <= i < start ==> is_space(#[trigger] text@[i]),
            start < len ==> !is_space(text@[start as int]),
        decreases len - start,
    {
        if !is_space_char(text.get_char(start)) {
            break;
        }
        start += 1;
    }
    let mut end: usize = len;
    while end > start
        invariant
            len == text@.len(),
            start <= end <= len,
            forall|i: int| end <= i < len ==> is_space(#[trigger] text@[i]),
        ensures
            start <= end <= len,
            forall|i: int| end <= i < len ==> is_space(#[trigger] text@[i]),
            end > start ==> !is_space(text@[end - 1]),
        decreases end,
    {
        if !is_space_char(text.get_char(end - 1)) {
            break;
        }
        end -= 1;
    }
    proof {
        lemma_leading_spaces(text@, start as int);
        let rest = text@.skip(start as int);
        assert forall|i: int| end - start <= i < rest.len() implies is_space(
            #[trigger] rest[i],
        ) by {
            assert(rest[i] == text@[i + start]);
        }
        if end > start {
            assert(rest[end - start - 1] == text@[end - 1]);
        }
        lemma_trailing_spaces(rest, end - start);
        assert(trimmed(text@) =~= text@.subrange(start as int, end as int));
    }
    text.substring_char(start, end)
}

/// The items of a list with a separator between each two.
pub open spec fn joined(items: Seq<Seq<char>>, separator: Seq<char>) -> Seq<char>
    decreases items.len(),
{
    if items.len() == 0 {
        Seq::empty()
    } else if items.len() == 1 {
        items[0]
    } else {
        joined(items.drop_last(), separator) + separator + items.last()
    }
}

/// The texts of a list of strings.
pub open spec fn texts(items: Seq<String>) -> Seq<Seq<char>> {
    Seq::new(items.len(), |i: int| items[i]@)
}

/// The text of an optional string.
pub open spec fn opt_text(value: Option<String>) -> Option<Seq<char>> {
    match value {
        Some(text) => Some(text@),
        None => None,
    }
}

/// The text of an optional string slice.
pub open spec fn opt_str(value: Option<&str>) -> Option<Seq<char>> {
    match value {
        Some(text) => Some(text@),
        None => None,
    }
}

/// The texts of an optional list of strings.
pub open spec fn opt_texts(value: Option<Vec<String>>) -> Option<Seq<Seq<char>>> {
    match value {
        Some(items) => Some(texts(items@)),
        None => None,
    }
}

/// Writes the items of a list with a separator between each two.
pub fn join(items: &Vec<String>, separator: &str) -> (text: String)
    ensures
        text@ == joined(texts(items@), separator@),
{
    let mut text = String::new();
    let mut done: usize = 0;
    while done < items.len()
        invariant
            done <= items.len(),
            text@ == joined(texts(items@).take(done as int), separator@),
        decreases items.len() - done,
    {
        proof {
            let before = texts(items@).take(done as int);
            let after = texts(items@).take(done + 1);
            assert(after.drop_last() =~= before);
            assert(after.last() == items@[done as int]@);
        }
        if done > 0 {
            text.append(separator);
        }
        text.append(items[done].as_str());
        proof {
            if done == 0 {
                assert(text@ =~= items@[0]@);
            }
        }
        done += 1;
    }
    proof {
        assert(texts(items@).take(done as int) =~= texts(items@));
    }
    text
}

} // verus!
