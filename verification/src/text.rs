//! Text as it comes back from a subprocess: decoding and trimming.

use vstd::prelude::*;
use vstd::std_specs::iter::IteratorSpec;
use vstd::string::*;
use vstd::utf8::*;

verus! {

/// Whether `c` has the Unicode property `White_Space`: what
/// `char::is_whitespace` answers for it.
pub uninterp spec fn is_white_space(c: char) -> bool;

/// `s` without its leading whitespace.
pub open spec fn without_leading(s: Seq<char>) -> Seq<char>
    decreases s.len(),
{
    if s.len() > 0 && is_white_space(s.first()) {
        without_leading(s.drop_first())
    } else {
        s
    }
}

/// `s` without its trailing whitespace.
pub open spec fn without_trailing(s: Seq<char>) -> Seq<char>
    decreases s.len(),
{
    if s.len() > 0 && is_white_space(s.last()) {
        without_trailing(s.drop_last())
    } else {
        s
    }
}

/// `s` without leading and trailing whitespace.
pub open spec fn trimmed(s: Seq<char>) -> Seq<char> {
    without_trailing(without_leading(s))
}

/// Every character of `s` from `from` up to `to` is whitespace.
pub open spec fn all_white_space(s: Seq<char>, from: int, to: int) -> bool {
    forall|i: int| from <= i < to ==> is_white_space(#[trigger] s[i])
}

/// Calls `char::is_whitespace` of the standard library, which answers
/// whether the character has the Unicode property `White_Space`. The answer
/// depends on the character alone, and [`is_white_space`] is the name of it.
/// Taken on trust: nothing here proves which characters these are.
#[verifier::external_body]
fn is_whitespace(c: char) -> (answer: bool)
    ensures
        answer == is_white_space(c),
{
    c.is_whitespace()
}

/// Calls `String::from_utf8` of the standard library, which hands back the
/// text that the bytes encode where they are well-formed UTF-8, and an error
/// where they are not; the error becomes `None`. Taken on trust: that the
/// call accepts exactly the bytes that `valid_utf8` accepts, and that the
/// text is the one that `decode_utf8` gives.
#[verifier::external_body]
pub(crate) fn from_utf8(bytes: Vec<u8>) -> (text: Option<String>)
    ensures
        text is Some <==> valid_utf8(bytes@),
        text matches Some(t) ==> t@ == decode_utf8(bytes@),
{
    match String::from_utf8(bytes) {
        Ok(text) => Some(text),
        Err(_) => None,
    }
}

/// Skipping `k` leading whitespace characters that end at a character which
/// is not whitespace, or at the end, is all that `without_leading` does.
pub proof fn lemma_without_leading(s: Seq<char>, k: int)
    requires
        0 <= k <= s.len(),
        all_white_space(s, 0, k),
        k < s.len() ==> !is_white_space(s[k]),
    ensures
        without_leading(s) == s.skip(k),
    decreases k,
{
    if k > 0 {
        let rest = s.drop_first();
        assert forall|i: int| 0 <= i < k - 1 implies is_white_space(#[trigger] rest[i]) by {}
        lemma_without_leading(rest, k - 1);
    }
}

/// Dropping trailing whitespace back to the position `k`, which follows a
/// character that is not whitespace or is the start, is all that
/// `without_trailing` does.
pub proof fn lemma_without_trailing(s: Seq<char>, k: int)
    requires
        0 <= k <= s.len(),
        all_white_space(s, k, s.len() as int),
        k > 0 ==> !is_white_space(s[k - 1]),
    ensures
        without_trailing(s) == s.take(k),
    decreases s.len() - k,
{
    if k < s.len() {
        let rest = s.drop_last();
        assert forall|i: int| k <= i < rest.len() implies is_white_space(#[trigger] rest[i]) by {}
        lemma_without_trailing(rest, k);
    }
}

/// Where the leading whitespace of `s` ends: everything before the position
/// is whitespace, the character at it is not, and `without_leading` keeps all
/// from it on.
pub proof fn lemma_leading_end(s: Seq<char>) -> (k: int)
    ensures
        0 <= k <= s.len(),
        all_white_space(s, 0, k),
        k < s.len() ==> !is_white_space(s[k]),
        without_leading(s) == s.skip(k),
    decreases s.len(),
{
    if s.len() > 0 && is_white_space(s.first()) {
        let rest = s.drop_first();
        let inner = lemma_leading_end(rest);
        assert forall|i: int| 0 <= i < inner + 1 implies is_white_space(#[trigger] s[i]) by {
            if i > 0 {
                assert(s[i] == rest[i - 1]);
            }
        }
        inner + 1
    } else {
        0
    }
}

/// Where the trailing whitespace of `s` begins: everything from the position
/// on is whitespace, the character before it is not, and `without_trailing`
/// keeps all before it.
pub proof fn lemma_trailing_start(s: Seq<char>) -> (k: int)
    ensures
        0 <= k <= s.len(),
        all_white_space(s, k, s.len() as int),
        k > 0 ==> !is_white_space(s[k - 1]),
        without_trailing(s) == s.take(k),
    decreases s.len(),
{
    if s.len() > 0 && is_white_space(s.last()) {
        let rest = s.drop_last();
        let inner = lemma_trailing_start(rest);
        assert forall|i: int| inner <= i < s.len() implies is_white_space(#[trigger] s[i]) by {
            if i < rest.len() {
                assert(s[i] == rest[i]);
            }
        }
        inner
    } else {
        s.len() as int
    }
}

/// A copy of `text` without its leading and trailing whitespace.
pub fn trim(text: &str) -> (result: String)
    ensures
        result@ == trimmed(text@),
{
    let length = text.unicode_len();
    let mut characters = text.chars();
    let mut position: usize = 0;
    let mut start: usize = 0;
    let mut end: usize = 0;
    loop
        invariant
            characters.obeys_prophetic_iter_laws(),
            length == text@.len(),
            position <= length,
            characters.remaining() == text@.skip(position as int),
            start <= end <= position,
            all_white_space(text@, 0, if end == 0 { position as int } else { start as int }),
            all_white_space(text@, end as int, position as int),
            end > 0 ==> !is_white_space(text@[start as int]) && !is_white_space(text@[end - 1]),
        ensures
            position == length,
        decreases length - position,
    {
        match characters.next() {
            None => {
                break ;
            },
            Some(c) => {
                if !is_whitespace(c) {
                    if end == 0 {
                        start = position;
                    }
                    end = position + 1;
                }
                position = position + 1;
            },
        }
    }
    proof {
        let s = text@;
        if end == 0 {
            lemma_without_leading(s, s.len() as int);
        } else {
            lemma_without_leading(s, start as int);
            let tail = s.skip(start as int);
            assert forall|i: int| end - start <= i < tail.len() implies is_white_space(
                #[trigger] tail[i],
            ) by {}
            lemma_without_trailing(tail, end - start);
        }
    }
    let kept = text.substring_char(start, end);
    kept.to_owned()
}

} // verus!
