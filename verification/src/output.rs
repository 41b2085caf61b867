//! Bounds the text that a tool hands back to the model.
//!
//! The limit counts bytes of UTF-8, while a cut never splits a character.

use vstd::prelude::*;
use vstd::string::*;
use vstd::utf8::*;

verus! {

/// The text that `String::from_utf8_lossy` makes of bytes.
pub uninterp spec fn lossy(bytes: Seq<u8>) -> Seq<char>;

/// Calls `String::from_utf8_lossy`.
///
/// The text depends on the bytes alone, and bytes that are valid UTF-8 are
/// decoded as they are. Which replacement characters stand for other bytes is
/// left unsaid.
#[verifier::external_body]
pub(crate) fn lossy_text(bytes: &Vec<u8>) -> (text: String)
    ensures
        text@ == lossy(bytes@),
        valid_utf8(bytes@) ==> text@ == decode_utf8(bytes@),
{
    String::from_utf8_lossy(bytes).into_owned()
}

/// The number of bytes of UTF-8 that a text takes.
pub open spec fn byte_len(text: Seq<char>) -> nat {
    encode_utf8(text).len()
}

/// How many leading characters of a text fit into `limit` bytes.
pub open spec fn fitting_chars(text: Seq<char>, limit: int) -> nat
    decreases text.len(),
{
    if text.len() == 0 || encode_scalar(text[0] as u32).len() > limit {
        0
    } else {
        1 + fitting_chars(text.drop_first(), limit - encode_scalar(text[0] as u32).len())
    }
}

/// The text itself where it fits, else its longest prefix that fits and a mark.
pub open spec fn truncated(text: Seq<char>, limit: nat) -> Seq<char> {
    if byte_len(text) <= limit {
        text
    } else {
        text.take(fitting_chars(text, limit as int) as int) + "\n[truncated]"@
    }
}

/// The last character boundary up to `limit` ends the prefix that fits.
proof fn lemma_boundary_ends_fitting_chars(text: Seq<char>, limit: int, end: int)
    requires
        0 <= end <= limit < byte_len(text),
        is_char_boundary(encode_utf8(text), end),
        forall|j: int| end < j <= limit ==> !#[trigger] is_char_boundary(encode_utf8(text), j),
    ensures
        fitting_chars(text, limit) <= text.len(),
        encode_utf8(text).subrange(0, end) == encode_utf8(
            text.take(fitting_chars(text, limit) as int),
        ),
    decreases text.len(),
{
    let bytes = encode_utf8(text);
    encode_utf8_valid_utf8(text);
    let width = encode_scalar(text[0] as u32).len() as int;
    let rest = text.drop_first();
    encode_utf8_first_scalar(text);
    encode_utf8_valid_utf8(rest);
    assert(pop_first_scalar(bytes) =~= encode_utf8(rest));
    if width > limit {
        assert(end == 0) by {
            if end > 0 {
                assert(is_char_boundary(encode_utf8(rest), end - width));
            }
        }
        assert(text.take(0) =~= Seq::<char>::empty());
        assert(bytes.subrange(0, 0) =~= Seq::<u8>::empty());
    } else {
        assert(is_char_boundary(encode_utf8(rest), 0));
        assert(is_char_boundary(bytes, width));
        assert(end >= width);
        assert(is_char_boundary(encode_utf8(rest), end - width));
        assert forall|j: int| end - width < j <= limit - width implies !#[trigger] is_char_boundary(
            encode_utf8(rest),
            j,
        ) by {
            assert(!is_char_boundary(bytes, j + width));
        }
        lemma_boundary_ends_fitting_chars(rest, limit - width, end - width);
        let kept = text.take(fitting_chars(text, limit) as int);
        assert(kept.drop_first() =~= rest.take(fitting_chars(rest, limit - width) as int));
        assert(bytes.subrange(0, end) =~= encode_scalar(text[0] as u32) + encode_utf8(
            rest,
        ).subrange(0, end - width));
    }
}

/// Truncates text on a character boundary and marks the truncation.
pub fn truncate_text(text: String, limit: usize) -> (shown: String)
    ensures
        shown@ == truncated(text@, limit as nat),
{
    let whole = text.as_str();
    if whole.as_bytes().len() <= limit {
        return text;
    }
    let mut end: usize = limit;
    proof {
        encode_utf8_valid_utf8(whole@);
        is_char_boundary_start_end_of_seq(encode_utf8(whole@));
    }
    while end > 0 && !whole.is_char_boundary(end)
        invariant
            end <= limit < byte_len(whole@),
            is_char_boundary(encode_utf8(whole@), 0),
            forall|j: int|
                end < j <= limit ==> !#[trigger] is_char_boundary(encode_utf8(whole@), j),
        decreases end,
    {
        end -= 1;
    }
    let (kept, _) = whole.split_at(end);
    proof {
        lemma_boundary_ends_fitting_chars(whole@, limit as int, end as int);
        encode_utf8_decode_utf8(kept@);
        encode_utf8_decode_utf8(whole@.take(fitting_chars(whole@, limit as int) as int));
    }
    let mut shown = kept.to_string();
    shown.append("\n[truncated]");
    shown
}

/// Encoding a concatenation encodes the parts one after the other.
proof fn lemma_encode_concat(left: Seq<char>, right: Seq<char>)
    ensures
        encode_utf8(left + right) == encode_utf8(left) + encode_utf8(right),
    decreases left.len(),
{
    if left.len() == 0 {
        assert(left + right =~= right);
        assert(encode_utf8(left) + encode_utf8(right) =~= encode_utf8(right));
    } else {
        assert((left + right).drop_first() =~= left.drop_first() + right);
        lemma_encode_concat(left.drop_first(), right);
        assert(encode_utf8(left + right) =~= encode_utf8(left) + encode_utf8(right));
    }
}

/// The characters that `fitting_chars` counts fit, and one more would not.
pub proof fn lemma_fitting_chars_is_longest(text: Seq<char>, limit: nat)
    ensures
        fitting_chars(text, limit as int) <= text.len(),
        byte_len(text.take(fitting_chars(text, limit as int) as int)) <= limit,
        forall|longer: int|
            fitting_chars(text, limit as int) < longer <= text.len() ==> byte_len(
                #[trigger] text.take(longer),
            ) > limit,
    decreases text.len(),
{
    if text.len() == 0 {
        assert(text.take(0) =~= Seq::<char>::empty());
    } else {
        let width = encode_scalar(text[0] as u32).len() as int;
        let rest = text.drop_first();
        if width > limit {
            assert(text.take(0) =~= Seq::<char>::empty());
            assert forall|longer: int| 0 < longer <= text.len() implies byte_len(
                #[trigger] text.take(longer),
            ) > limit by {
                assert(text.take(longer)[0] == text[0]);
            }
        } else {
            let room = (limit - width) as nat;
            lemma_fitting_chars_is_longest(rest, room);
            let kept = fitting_chars(text, limit as int) as int;
            assert(text.take(kept).drop_first() =~= rest.take(kept - 1));
            assert forall|longer: int| kept < longer <= text.len() implies byte_len(
                #[trigger] text.take(longer),
            ) > limit by {
                assert(text.take(longer).drop_first() =~= rest.take(longer - 1));
                assert(byte_len(rest.take(longer - 1)) > room);
            }
        }
    }
}

/// Truncated text exceeds the limit by the length of the mark at most.
pub proof fn lemma_truncation_is_bounded(text: Seq<char>, limit: nat)
    ensures
        byte_len(text) <= limit ==> truncated(text, limit) == text,
        byte_len(truncated(text, limit)) <= limit + byte_len("\n[truncated]"@),
        byte_len("\n[truncated]"@) == 12,
{
    let mark = "\n[truncated]"@;
    lemma_fitting_chars_is_longest(text, limit);
    lemma_encode_concat(text.take(fitting_chars(text, limit as int) as int), mark);
    reveal_strlit("\n[truncated]");
    is_ascii_chars_encode_utf8(mark);
}

} // verus!
