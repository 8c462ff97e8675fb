//! The map key that the server hands to its front end.

use vstd::prelude::*;

verus! {

/// The characters that count as white space: those with the Unicode
/// property `White_Space`.
pub open spec fn is_white_space(c: char) -> bool {
    let code = c as u32;
    ||| 0x09 <= code <= 0x0D
    ||| code == 0x20
    ||| code == 0x85
    ||| code == 0xA0
    ||| code == 0x1680
    ||| 0x2000 <= code <= 0x200A
    ||| code == 0x2028
    ||| code == 0x2029
    ||| code == 0x202F
    ||| code == 0x205F
    ||| code == 0x3000
}

/// The number of white-space characters at the start of `text`.
pub open spec fn leading_white_space(text: Seq<char>) -> nat
    decreases text.len(),
{
    if text.len() > 0 && is_white_space(text.first()) {
        1 + leading_white_space(text.drop_first())
    } else {
        0
    }
}

/// The number of white-space characters at the end of `text`.
pub open spec fn trailing_white_space(text: Seq<char>) -> nat
    decreases text.len(),
{
    if text.len() > 0 && is_white_space(text.last()) {
        1 + trailing_white_space(text.drop_last())
    } else {
        0
    }
}

/// `text` without the white space at its start and at its end.
pub open spec fn trimmed(text: Seq<char>) -> Seq<char> {
    let tail = text.skip(leading_white_space(text) as int);
    tail.take(tail.len() - trailing_white_space(tail))
}

/// The key that is served, given what the key file holds: the file's text
/// without the white space around it, and the empty key when there is no
/// file to read.
pub open spec fn api_key_text(contents: Option<Seq<char>>) -> Seq<char> {
    match contents {
        Some(text) => trimmed(text),
        None => Seq::empty(),
    }
}

proof fn lemma_leading_bounded(text: Seq<char>)
    ensures
        leading_white_space(text) <= text.len(),
    decreases text.len(),
{
    if text.len() > 0 && is_white_space(text.first()) {
        lemma_leading_bounded(text.drop_first());
    }
}

proof fn lemma_trailing_bounded(text: Seq<char>)
    ensures
        trailing_white_space(text) <= text.len(),
    decreases text.len(),
{
    if text.len() > 0 && is_white_space(text.last()) {
        lemma_trailing_bounded(text.drop_last());
    }
}

/// If the first `n` characters of `text` are white space, the white space at
/// the start of `text` is those `n` characters and the white space that
/// follows them.
proof fn lemma_leading_split(text: Seq<char>, n: int)
    requires
        0 <= n <= text.len(),
        forall|i: int| 0 <= i < n ==> is_white_space(#[trigger] text[i]),
    ensures
        leading_white_space(text) == n + leading_white_space(text.skip(n)),
    decreases n,
{
    if n == 0 {
        assert(text.skip(0) =~= text);
    } else {
        let rest = text.drop_first();
        assert forall|i: int| 0 <= i < n - 1 implies is_white_space(#[trigger] rest[i]) by {
            assert(rest[i] == text[i + 1]);
        }
        lemma_leading_split(rest, n - 1);
        assert(rest.skip(n - 1) =~= text.skip(n));
        assert(is_white_space(text[0]));
    }
}

/// If the last `n` characters of `text` are white space, the white space at
/// the end of `text` is those `n` characters and the white space before
/// them.
proof fn lemma_trailing_split(text: Seq<char>, n: int)
    requires
        0 <= n <= text.len(),
        forall|i: int| text.len() - n <= i < text.len() ==> is_white_space(#[trigger] text[i]),
    ensures
        trailing_white_space(text) == n + trailing_white_space(text.take(text.len() - n)),
    decreases n,
{
    if n == 0 {
        assert(text.take(text.len() as int) =~= text);
    } else {
        let rest = text.drop_last();
        assert forall|i: int| rest.len() - (n - 1) <= i < rest.len() implies is_white_space(
            #[trigger] rest[i],
        ) by {
            assert(rest[i] == text[i]);
        }
        lemma_trailing_split(rest, n - 1);
        assert(rest.take(rest.len() - (n - 1)) =~= text.take(text.len() - n));
        assert(is_white_space(text[text.len() - 1]));
    }
}

/// Whether `c` is a white-space character.
pub fn is_white(c: char) -> (white: bool)
    ensures
        white == is_white_space(c),
{
    let code: u32 = c as u32;
    (0x09 <= code && code <= 0x0D) || code == 0x20 || code == 0x85 || code == 0xA0 || code
        == 0x1680 || (0x2000 <= code && code <= 0x200A) || code == 0x2028 || code == 0x2029
        || code == 0x202F || code == 0x205F || code == 0x3000
}

/// `text` without the white space at its start and at its end.
pub fn trim(text: &str) -> (inner: &str)
    ensures
        inner@ == trimmed(text@),
{
    let len: usize = text.unicode_len();
    let mut start: usize = 0;
    while start < len && is_white(text.get_char(start))
        invariant
            start <= len,
            len == text@.len(),
            forall|i: int| 0 <= i < start ==> is_white_space(#[trigger] text@[i]),
        decreases len - start,
    {
        start += 1;
    }
    let mut end: usize = len;
    while end > start && is_white(text.get_char(end - 1))
        invariant
            start <= end <= len,
            len == text@.len(),
            forall|i: int| end <= i < len ==> is_white_space(#[trigger] text@[i]),
        decreases end - start,
    {
        end -= 1;
    }
    proof {
        let tail = text@.skip(start as int);
        lemma_leading_split(text@, start as int);
        assert(leading_white_space(tail) == 0) by {
            if start < len {
                assert(tail.first() == text@[start as int]);
            }
        }
        assert forall|i: int| tail.len() - (len - end) <= i < tail.len() implies is_white_space(
            #[trigger] tail[i],
        ) by {
            assert(tail[i] == text@[i + start]);
        }
        lemma_trailing_split(tail, len - end);
        let kept = tail.take(tail.len() - (len - end));
        assert(trailing_white_space(kept) == 0) by {
            if end > start {
                assert(kept.last() == text@[end - 1]);
            }
        }
        assert(kept =~= text@.subrange(start as int, end as int));
    }
    text.substring_char(start, end)
}

/// The key that is served, given what the key file holds, or `None` when the
/// file could not be read.
pub fn api_key(contents: Option<&str>) -> (key: String)
    ensures
        key@ == api_key_text(
            match contents {
                Some(text) => Some(text@),
                None => None,
            },
        ),
{
    match contents {
        Some(text) => String::from_str(trim(text)),
        None => String::new(),
    }
}

} // verus!
