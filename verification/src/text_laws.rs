//! What rendered, trimmed and joined texts are, told by what can be read off them.

use crate::text;
use vstd::prelude::*;
use vstd::string::*;

verus! {

/// The number that a list of decimal digits stands for.
pub open spec fn number_of(digits: Seq<char>) -> int
    decreases digits.len(),
{
    if digits.len() == 0 {
        0
    } else {
        number_of(digits.drop_last()) * 10 + (digits.last() as int - '0' as int)
    }
}

/// A numeral consists of decimal digits, does not start with a zero unless it is one digit long,
/// and stands for the number that it was made of.
pub proof fn lemma_numerals_read_back(value: nat)
    ensures
        number_of(text::decimal(value)) == value,
        text::decimal(value).len() > 0,
        text::decimal(value).len() > 1 ==> text::decimal(value)[0] != '0',
        forall|i: int|
            0 <= i < text::decimal(value).len() ==> '0' <= #[trigger] text::decimal(value)[i]
                <= '9',
        value > 0 ==> text::decimal(value)[0] != '0',
    decreases value,
{
    let digits = text::decimal(value);
    if value < 10 {
        assert(digits.drop_last() =~= Seq::empty());
        assert(number_of(digits.drop_last()) == 0);
    } else {
        lemma_numerals_read_back(value / 10);
        assert(digits.drop_last() =~= text::decimal(value / 10));
    }
}

/// A numeral of an integer is that of its size, after a minus sign exactly below zero.
pub proof fn lemma_minus_sign_below_zero(value: int)
    ensures
        value >= 0 ==> text::signed_decimal(value) == text::decimal(value as nat),
        value < 0 ==> text::signed_decimal(value) == seq!['-'] + text::decimal((-value) as nat),
{
}

/// Two lists joined one after the other are joined by the separator too.
pub proof fn lemma_joins_can_be_split(
    first: Seq<Seq<char>>,
    second: Seq<Seq<char>>,
    separator: Seq<char>,
    single: Seq<char>,
)
    ensures
        first.len() > 0 && second.len() > 0 ==> text::joined(first + second, separator)
            == text::joined(first, separator) + separator + text::joined(second, separator),
        text::joined(seq![single], separator) == single,
        text::joined(Seq::empty(), separator).len() == 0,
    decreases second.len(),
{
    if first.len() > 0 && second.len() > 0 {
        let all = first + second;
        assert(all.drop_last() =~= first + second.drop_last());
        if second.len() == 1 {
            assert(first + second.drop_last() =~= first);
        } else {
            lemma_joins_can_be_split(first, second.drop_last(), separator, single);
            assert(text::joined(all, separator) =~= text::joined(first, separator) + separator
                + text::joined(second, separator));
        }
    }
}

/// The white space at the start of a text.
proof fn lemma_start_is_trimmed(line: Seq<char>) -> (start: int)
    ensures
        0 <= start <= line.len(),
        text::trimmed_start(line) == line.skip(start),
        forall|i: int| 0 <= i < start ==> text::is_white_space(#[trigger] line[i]),
        start < line.len() ==> !text::is_white_space(line[start]),
    decreases line.len(),
{
    if line.len() > 0 && text::is_white_space(line[0]) {
        let rest = lemma_start_is_trimmed(line.drop_first());
        assert(line.drop_first().skip(rest) =~= line.skip(rest + 1));
        assert forall|i: int| 0 <= i < rest + 1 implies text::is_white_space(#[trigger] line[i]) by {
            if i > 0 {
                assert(line.drop_first()[i - 1] == line[i]);
            }
        }
        if rest + 1 < line.len() {
            assert(line.drop_first()[rest] == line[rest + 1]);
        }
        rest + 1
    } else {
        assert(line.skip(0) =~= line);
        0
    }
}

/// The white space at the end of a text.
proof fn lemma_end_is_trimmed(line: Seq<char>) -> (end: int)
    ensures
        0 <= end <= line.len(),
        text::trimmed_end(line) == line.take(end),
        forall|i: int| end <= i < line.len() ==> text::is_white_space(#[trigger] line[i]),
        end > 0 ==> !text::is_white_space(line[end - 1]),
    decreases line.len(),
{
    if line.len() > 0 && text::is_white_space(line.last()) {
        let end = lemma_end_is_trimmed(line.drop_last());
        assert(line.drop_last().take(end) =~= line.take(end));
        assert forall|i: int| end <= i < line.len() implies text::is_white_space(
            #[trigger] line[i],
        ) by {
            if i < line.len() - 1 {
                assert(line.drop_last()[i] == line[i]);
            }
        }
        end
    } else {
        assert(line.take(line.len() as int) =~= line);
        line.len() as int
    }
}

/// Trimming takes white space off both ends and nothing else: what is left is a stretch of the
/// text that neither starts nor ends in white space, and there is nothing but white space around
/// it.
pub proof fn lemma_trimming_takes_white_space_only(line: Seq<char>) -> (ends: (int, int))
    ensures
        0 <= ends.0 <= ends.1 <= line.len(),
        text::trimmed(line) == line.subrange(ends.0, ends.1),
        forall|i: int| 0 <= i < ends.0 ==> text::is_white_space(#[trigger] line[i]),
        forall|i: int| ends.1 <= i < line.len() ==> text::is_white_space(#[trigger] line[i]),
        ends.0 < ends.1 ==> !text::is_white_space(line[ends.0]) && !text::is_white_space(
            line[ends.1 - 1],
        ),
{
    let start = lemma_start_is_trimmed(line);
    let rest = line.skip(start);
    let end = lemma_end_is_trimmed(rest);
    assert(rest.take(end) =~= line.subrange(start, start + end));
    assert forall|i: int| start + end <= i < line.len() implies text::is_white_space(
        #[trigger] line[i],
    ) by {
        assert(rest[i - start] == line[i]);
    }
    if end > 0 {
        assert(rest[end - 1] == line[start + end - 1]);
    }
    (start, start + end)
}

/// The characters that count as white space.
pub proof fn lemma_white_space_is_listed(c: char)
    ensures
        text::is_white_space(c) <==> seq![
            '\t', '\n', '\u{b}', '\u{c}', '\r', ' ', '\u{85}', '\u{a0}', '\u{1680}', '\u{2000}',
            '\u{2001}', '\u{2002}', '\u{2003}', '\u{2004}', '\u{2005}', '\u{2006}', '\u{2007}',
            '\u{2008}', '\u{2009}', '\u{200a}', '\u{2028}', '\u{2029}', '\u{202f}', '\u{205f}',
            '\u{3000}',
        ].contains(c),
{
    let listed = seq![
        '\t', '\n', '\u{b}', '\u{c}', '\r', ' ', '\u{85}', '\u{a0}', '\u{1680}', '\u{2000}',
        '\u{2001}', '\u{2002}', '\u{2003}', '\u{2004}', '\u{2005}', '\u{2006}', '\u{2007}',
        '\u{2008}', '\u{2009}', '\u{200a}', '\u{2028}', '\u{2029}', '\u{202f}', '\u{205f}',
        '\u{3000}',
    ];
    if text::is_white_space(c) {
        let at: int = if '\t' <= c <= '\r' {
            c as int - '\t' as int
        } else if c == ' ' {
            5
        } else if c == '\u{85}' {
            6
        } else if c == '\u{a0}' {
            7
        } else if c == '\u{1680}' {
            8
        } else if '\u{2000}' <= c <= '\u{200a}' {
            9 + (c as int - '\u{2000}' as int)
        } else if c == '\u{2028}' {
            20
        } else if c == '\u{2029}' {
            21
        } else if c == '\u{202f}' {
            22
        } else if c == '\u{205f}' {
            23
        } else {
            24
        };
        assert(listed[at] == c);
    }
    if listed.contains(c) {
        let i = choose|i: int| 0 <= i < listed.len() && listed[i] == c;
        assert(text::is_white_space(listed[i]));
    }
}

/// The texts of a list, and of a string that may be absent, are those of the strings.
pub proof fn lemma_texts_are_those_of_the_strings(list: Seq<String>, value: Option<String>)
    ensures
        text::texts(list).len() == list.len(),
        forall|i: int| 0 <= i < list.len() ==> #[trigger] text::texts(list)[i] == list[i]@,
        value is None <==> text::optional(value) is None,
        value matches Some(word) ==> text::optional(value) == Some(word@),
{
}

} // verus!
