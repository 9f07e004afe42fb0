//! String primitives of the matcher: prefix stripping, digit runs, and the
//! rollback of an output buffer to an earlier length.
//!
//! Contracts speak of strings through their view, a `Seq<char>`. The buffer
//! is rolled back by byte length, so the UTF-8 facts that tie a byte length
//! to a prefix of characters are proved here.

use vstd::prelude::*;
use vstd::string::*;
use vstd::utf8::*;

verus! {

/// True for the ten ASCII digits.
pub open spec fn is_digit(c: char) -> bool {
    '0' <= c <= '9'
}

/// Length of the longest prefix of `s` made of ASCII digits only.
pub open spec fn digit_run(s: Seq<char>) -> nat
    decreases s.len(),
{
    if s.len() > 0 && is_digit(s[0]) {
        1 + digit_run(s.drop_first())
    } else {
        0
    }
}

/// The run is a prefix of digits, and it is maximal: it ends at the end of
/// `s` or in front of a character that is no digit.
pub proof fn lemma_digit_run(s: Seq<char>)
    ensures
        digit_run(s) <= s.len(),
        forall|i: int| 0 <= i < digit_run(s) ==> is_digit(#[trigger] s[i]),
        digit_run(s) < s.len() ==> !is_digit(s[digit_run(s) as int]),
    decreases s.len(),
{
    if s.len() > 0 && is_digit(s[0]) {
        let t = s.drop_first();
        lemma_digit_run(t);
        assert forall|i: int| 0 <= i < digit_run(s) implies is_digit(#[trigger] s[i]) by {
            if i > 0 {
                assert(s[i] == t[i - 1]);
            }
        }
        if digit_run(s) < s.len() {
            assert(s[digit_run(s) as int] == t[digit_run(t) as int]);
        }
    }
}

/// A prefix of digits that cannot be extended is the digit run.
pub proof fn lemma_digit_run_unique(s: Seq<char>, k: nat)
    requires
        k <= s.len(),
        forall|i: int| 0 <= i < k ==> is_digit(#[trigger] s[i]),
        k < s.len() ==> !is_digit(s[k as int]),
    ensures
        digit_run(s) == k,
    decreases k,
{
    if k > 0 {
        let t = s.drop_first();
        assert(is_digit(s[0]));
        assert forall|i: int| 0 <= i < k - 1 implies is_digit(#[trigger] t[i]) by {
            assert(t[i] == s[i + 1]);
        }
        if k < s.len() {
            assert(t[k - 1] == s[k as int]);
        }
        lemma_digit_run_unique(t, (k - 1) as nat);
    }
}

/// Tells whether `c` is an ASCII digit.
pub fn is_ascii_digit(c: char) -> (digit: bool)
    ensures
        digit == is_digit(c),
{
    '0' <= c && c <= '9'
}

/// Splits `input` behind its leading run of ASCII digits.
pub fn split_digits<'a>(input: &'a str) -> (parts: (&'a str, &'a str))
    ensures
        parts.0@ == input@.take(digit_run(input@) as int),
        parts.1@ == input@.skip(digit_run(input@) as int),
{
    let len: usize = input.unicode_len();
    let mut end: usize = 0;
    while end < len && is_ascii_digit(input.get_char(end))
        invariant
            end <= len,
            len == input@.len(),
            forall|i: int| 0 <= i < end ==> is_digit(#[trigger] input@[i]),
        decreases len - end,
    {
        end = end + 1;
    }
    proof {
        lemma_digit_run_unique(input@, end as nat);
    }
    (input.substring_char(0, end), input.substring_char(end, len))
}

/// `str::strip_prefix` with a string as the pattern: when `input` starts with
/// `prefix` the result is what follows the prefix, otherwise it is `None`.
#[verifier::external_body]
pub(crate) fn strip_prefix<'a>(input: &'a str, prefix: &str) -> (tail: Option<&'a str>)
    ensures
        match tail {
            Some(rest) => input@ == prefix@ + rest@,
            None => !prefix@.is_prefix_of(input@),
        },
{
    input.strip_prefix(prefix)
}

/// `String::truncate`: keeps the first `new_len` bytes of the UTF-8 encoding,
/// and leaves the string alone when it is no longer than that. The standard
/// library panics when `new_len` falls inside a character, which `requires`
/// rules out.
#[verifier::external_body]
pub(crate) fn truncate(s: &mut String, new_len: usize)
    requires
        new_len <= encode_utf8(old(s)@).len() ==> is_char_boundary(
            encode_utf8(old(s)@),
            new_len as int,
        ),
    ensures
        new_len <= encode_utf8(old(s)@).len() ==> encode_utf8(final(s)@) == encode_utf8(
            old(s)@,
        ).subrange(0, new_len as int),
        new_len > encode_utf8(old(s)@).len() ==> final(s)@ == old(s)@,
{
    s.truncate(new_len)
}

/// The encoding of a concatenation is the concatenation of the encodings.
pub proof fn lemma_encode_concat(a: Seq<char>, b: Seq<char>)
    ensures
        encode_utf8(a + b) == encode_utf8(a) + encode_utf8(b),
    decreases a.len(),
{
    if a.len() == 0 {
        assert(a + b == b);
        assert(encode_utf8(a) + encode_utf8(b) == encode_utf8(b));
    } else {
        let rest = a.drop_first();
        lemma_encode_concat(rest, b);
        assert((a + b).drop_first() == rest + b);
        assert((a + b)[0] == a[0]);
        assert(encode_utf8(a + b) == encode_scalar(a[0] as u32) + (encode_utf8(rest)
            + encode_utf8(b)));
    }
}

/// The byte length of a prefix of characters is a character boundary of the
/// whole encoding.
pub proof fn lemma_prefix_is_boundary(a: Seq<char>, b: Seq<char>)
    ensures
        is_char_boundary(encode_utf8(a + b), encode_utf8(a).len() as int),
    decreases a.len(),
{
    let bytes = encode_utf8(a + b);
    encode_utf8_valid_utf8(a + b);
    if a.len() > 0 {
        let rest = a.drop_first();
        assert((a + b).drop_first() == rest + b);
        assert((a + b)[0] == a[0]);
        encode_utf8_first_scalar(a + b);
        lemma_encode_concat(a, b);
        assert(pop_first_scalar(bytes) == encode_utf8(rest + b));
        lemma_prefix_is_boundary(rest, b);
        assert(encode_utf8(a).len() == encode_scalar(a[0] as u32).len() + encode_utf8(rest).len());
        assert(encode_scalar(a[0] as u32).len() > 0);
    }
}

/// Byte length of the buffer, the mark to which [`rewind`] returns.
pub fn mark(output: &String) -> (len: usize)
    ensures
        len == encode_utf8(output@).len(),
{
    output.as_str().as_bytes().len()
}

/// Cuts `output` back to the `kept` characters it held when `mark` was taken.
pub(crate) fn rewind(output: &mut String, mark: usize, Ghost(kept): Ghost<Seq<char>>)
    requires
        kept.is_prefix_of(old(output)@),
        mark == encode_utf8(kept).len(),
    ensures
        final(output)@ == kept,
{
    proof {
        let added = old(output)@.skip(kept.len() as int);
        assert(old(output)@ == kept + added);
        lemma_encode_concat(kept, added);
        lemma_prefix_is_boundary(kept, added);
    }
    truncate(output, mark);
    proof {
        let added = old(output)@.skip(kept.len() as int);
        assert(encode_utf8(output@) == encode_utf8(kept)) by {
            assert((encode_utf8(kept) + encode_utf8(added)).subrange(0, mark as int)
                == encode_utf8(kept));
        }
        encode_utf8_decode_utf8(output@);
        encode_utf8_decode_utf8(kept);
    }
}

/// The characters of `text`, one by one.
pub fn chars_of(text: &str) -> (chars: Vec<char>)
    ensures
        chars@ == text@,
{
    let mut chars: Vec<char> = Vec::new();
    for c in iter: text.chars()
        invariant
            chars@ == iter.seq().take(iter.index() as int),
            iter.seq() == text@,
    {
        chars.push(c);
    }
    chars
}

} // verus!
