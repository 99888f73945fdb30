//! Trimming and slicing of string slices, stated over their characters.

use vstd::prelude::*;
use vstd::string::{StrSliceExecFns, StringSliceAdditionalSpecFns};
use vstd::std_specs::iter::IteratorSpec;
use vstd::utf8::*;

verus! {

/// Whether `c` is a whitespace character: what `char::is_whitespace` answers
/// for it.
pub uninterp spec fn is_whitespace(c: char) -> bool;

/// Tests a character for whitespace.
///
/// Wraps `char::is_whitespace`, which looks the character up in the Unicode
/// `White_Space` table that the standard library was built with. The contract
/// claims only that the answer depends on the character alone.
#[verifier::external_body]
fn char_is_whitespace(c: char) -> (white: bool)
    ensures
        white == is_whitespace(c),
{
    c.is_whitespace()
}

/// `text` without its leading whitespace.
pub open spec fn trim_start_of(text: Seq<char>) -> Seq<char>
    decreases text.len(),
{
    if text.len() > 0 && is_whitespace(text.first()) {
        trim_start_of(text.drop_first())
    } else {
        text
    }
}

/// `text` without its trailing whitespace.
pub open spec fn trim_end_of(text: Seq<char>) -> Seq<char>
    decreases text.len(),
{
    if text.len() > 0 && is_whitespace(text.last()) {
        trim_end_of(text.drop_last())
    } else {
        text
    }
}

/// `text` without its leading and trailing whitespace.
pub open spec fn trim_of(text: Seq<char>) -> Seq<char> {
    trim_end_of(trim_start_of(text))
}

/// Whether `start..end` is a range of bytes of `text` in its UTF-8 form that
/// cuts no character in two.
pub open spec fn is_slice_range(text: Seq<char>, start: int, end: int) -> bool {
    &&& 0 <= start <= end <= encode_utf8(text).len()
    &&& is_char_boundary(encode_utf8(text), start)
    &&& is_char_boundary(encode_utf8(text), end)
}

/// The characters that the bytes `start..end` of `text` in its UTF-8 form
/// spell.
pub open spec fn slice_of(text: Seq<char>, start: int, end: int) -> Seq<char> {
    decode_utf8(encode_utf8(text).subrange(start, end))
}

/// No range that ends behind the last byte of the text is a range of it: in
/// particular not the range that starts one byte behind the end.
pub proof fn lemma_range_past_end_is_no_slice(text: Seq<char>, start: int, end: int)
    requires
        end > encode_utf8(text).len(),
    ensures
        !is_slice_range(text, start, end),
        !is_slice_range(
            text,
            encode_utf8(text).len() as int + 1,
            encode_utf8(text).len() as int + 2,
        ),
{
}

/// The range of all bytes selects the whole text, and the empty range at the
/// start selects nothing.
pub proof fn lemma_whole_and_empty_slice(text: Seq<char>)
    ensures
        is_slice_range(text, 0, encode_utf8(text).len() as int),
        slice_of(text, 0, encode_utf8(text).len() as int) == text,
        is_slice_range(text, 0, 0),
        slice_of(text, 0, 0) == Seq::<char>::empty(),
{
    broadcast use {
        encode_utf8_valid_utf8,
        encode_utf8_decode_utf8,
        is_char_boundary_start_end_of_seq,
    };

    let bytes = encode_utf8(text);
    assert(bytes.subrange(0, bytes.len() as int) == bytes);
    assert(bytes.subrange(0, 0) == encode_utf8(Seq::<char>::empty()));
}

/// Text that neither starts nor ends with whitespace is its own trimmed form.
pub proof fn lemma_trim_keeps_trimmed(text: Seq<char>)
    requires
        text.len() > 0 ==> !is_whitespace(text.first()) && !is_whitespace(text.last()),
    ensures
        trim_of(text) == text,
{
}

/// What trimming the end leaves is a prefix of the text, and is empty or ends
/// with a character that is no whitespace.
proof fn lemma_trim_end_is_prefix(text: Seq<char>)
    ensures
        trim_end_of(text).len() <= text.len(),
        trim_end_of(text) == text.subrange(0, trim_end_of(text).len() as int),
        trim_end_of(text).len() > 0 ==> !is_whitespace(trim_end_of(text).last()),
    decreases text.len(),
{
    if text.len() > 0 && is_whitespace(text.last()) {
        lemma_trim_end_is_prefix(text.drop_last());
    }
}

/// What trimming the start leaves is empty or starts with a character that is
/// no whitespace.
proof fn lemma_trim_start_head(text: Seq<char>)
    ensures
        trim_start_of(text).len() > 0 ==> !is_whitespace(trim_start_of(text).first()),
    decreases text.len(),
{
    if text.len() > 0 && is_whitespace(text.first()) {
        lemma_trim_start_head(text.drop_first());
    }
}

/// Trimming is idempotent: trimmed text has no whitespace left to trim.
pub proof fn lemma_trim_idempotent(text: Seq<char>)
    ensures
        trim_of(trim_of(text)) == trim_of(text),
{
    let started = trim_start_of(text);
    let trimmed = trim_end_of(started);
    lemma_trim_start_head(text);
    lemma_trim_end_is_prefix(started);
    if trimmed.len() > 0 {
        assert(trimmed.first() == started.first());
    }
    lemma_trim_keeps_trimmed(trimmed);
}

/// Text that holds nothing but whitespace is trimmed to nothing.
proof fn lemma_trim_of_whitespace(text: Seq<char>)
    requires
        forall|i: int| 0 <= i < text.len() ==> is_whitespace(#[trigger] text[i]),
    ensures
        trim_of(text) == Seq::<char>::empty(),
    decreases text.len(),
{
    if text.len() > 0 {
        let rest = text.drop_first();
        assert forall|i: int| 0 <= i < rest.len() implies is_whitespace(#[trigger] rest[i]) by {
            assert(rest[i] == text[i + 1]);
        }
        lemma_trim_of_whitespace(rest);
    }
}

/// Trimming the start drops the whitespace up to the first other character.
proof fn lemma_trim_start_at(text: Seq<char>, start: int)
    requires
        0 <= start < text.len(),
        forall|i: int| 0 <= i < start ==> is_whitespace(#[trigger] text[i]),
        !is_whitespace(text[start]),
    ensures
        trim_start_of(text) == text.subrange(start, text.len() as int),
    decreases start,
{
    if start == 0 {
        assert(text.subrange(0, text.len() as int) == text);
    } else {
        let rest = text.drop_first();
        assert forall|i: int| 0 <= i < start - 1 implies is_whitespace(#[trigger] rest[i]) by {
            assert(rest[i] == text[i + 1]);
        }
        lemma_trim_start_at(rest, start - 1);
        assert(rest.subrange(start - 1, rest.len() as int) == text.subrange(
            start,
            text.len() as int,
        ));
    }
}

/// Trimming the end drops the whitespace behind the last other character.
proof fn lemma_trim_end_at(text: Seq<char>, end: int)
    requires
        0 < end <= text.len(),
        forall|i: int| end <= i < text.len() ==> is_whitespace(#[trigger] text[i]),
        !is_whitespace(text[end - 1]),
    ensures
        trim_end_of(text) == text.subrange(0, end),
    decreases text.len() - end,
{
    if end == text.len() {
        assert(text.subrange(0, end) == text);
    } else {
        let rest = text.drop_last();
        lemma_trim_end_at(rest, end);
        assert(rest.subrange(0, end) == text.subrange(0, end));
    }
}

/// Text is trimmed to what stands from its first to its last character that
/// is no whitespace.
proof fn lemma_trim_between(text: Seq<char>, start: int, end: int)
    requires
        0 <= start < end <= text.len(),
        forall|i: int| 0 <= i < start ==> is_whitespace(#[trigger] text[i]),
        forall|i: int| end <= i < text.len() ==> is_whitespace(#[trigger] text[i]),
        !is_whitespace(text[start]),
        !is_whitespace(text[end - 1]),
    ensures
        trim_of(text) == text.subrange(start, end),
{
    lemma_trim_start_at(text, start);
    let started = text.subrange(start, text.len() as int);
    assert forall|i: int| end - start <= i < started.len() implies is_whitespace(
        #[trigger] started[i],
    ) by {
        assert(started[i] == text[i + start]);
    }
    lemma_trim_end_at(started, end - start);
    assert(started.subrange(0, end - start) == text.subrange(start, end));
}

/// Removes leading and trailing whitespace and returns the part of `s` that
/// is left.
pub fn trim(s: &str) -> (trimmed: &str)
    ensures
        trimmed@ == trim_of(s@),
{
    broadcast use {vstd::string::axiom_spec_iter, vstd::string::next_postcondition};

    let len = s.unicode_len();
    let mut chars = s.chars();
    let mut seen: usize = 0;
    let mut start: usize = 0;
    let mut end: usize = 0;
    assert(s@.subrange(0, len as int) == s@);
    loop
        invariant
            seen <= len == s@.len(),
            chars.remaining() == s@.subrange(seen as int, len as int),
            forall|i: int| 0 <= i < seen && i < start ==> is_whitespace(#[trigger] s@[i]),
            forall|i: int| end <= i < seen ==> is_whitespace(#[trigger] s@[i]),
            end == 0 ==> start == 0,
            end > 0 ==> start < end <= seen && !is_whitespace(s@[start as int]) && !is_whitespace(
                s@[end - 1],
            ),
        ensures
            seen == len,
        decreases len - seen,
    {
        match chars.next() {
            Some(c) => {
                assert(c == s@[seen as int]);
                assert(s@.subrange(seen as int, len as int).drop_first() == s@.subrange(
                    seen + 1,
                    len as int,
                ));
                if !char_is_whitespace(c) {
                    if end == 0 {
                        start = seen;
                    }
                    end = seen + 1;
                }
                seen += 1;
            },
            None => {
                assert(s@.subrange(seen as int, len as int).len() == 0);
                break ;
            },
        }
    }
    proof {
        if end == 0 {
            lemma_trim_of_whitespace(s@);
        } else {
            lemma_trim_between(s@, start as int, end as int);
        }
    }
    s.substring_char(start, end)
}

/// The part of `s` that its bytes `start..end` spell.
pub fn substring(s: &str, start: usize, end: usize) -> (part: &str)
    requires
        is_slice_range(s@, start as int, end as int),
    ensures
        part@ == slice_of(s@, start as int, end as int),
{
    broadcast use {
        encode_utf8_valid_utf8,
        encode_utf8_decode_utf8,
        valid_utf8_split,
        is_char_boundary_start_end_of_seq,
        is_char_boundary_iff_not_is_continuation_byte,
    };

    let ghost bytes = s.spec_bytes();
    let (head, _) = s.split_at(end);
    assert(head.spec_bytes() == bytes.subrange(0, end as int));
    assert(is_char_boundary(head.spec_bytes(), start as int)) by {
        if start < end {
            assert(head.spec_bytes()[start as int] == bytes[start as int]);
        }
    }
    let (_, part) = head.split_at(start);
    assert(part.spec_bytes() == bytes.subrange(start as int, end as int));
    part
}

} // verus!
