//! Finds the one place in a text that an exact replacement names.

use crate::text::chars_of;
use vstd::prelude::*;
use vstd::string::*;

verus! {

/// Whether `pattern` stands in `text` at character `at`.
pub open spec fn occurs_at(text: Seq<char>, pattern: Seq<char>, at: int) -> bool {
    0 <= at <= text.len() - pattern.len() && text.subrange(at, at + pattern.len()) == pattern
}

/// Counts the disjoint occurrences of a pattern from character `from` on, leftmost first.
///
/// The empty pattern occurs before every character and at the end.
pub open spec fn disjoint_matches(text: Seq<char>, pattern: Seq<char>, from: int) -> nat
    decreases text.len() + 1 - from,
{
    if from < 0 || from > text.len() - pattern.len() {
        0
    } else if occurs_at(text, pattern, from) {
        1 + disjoint_matches(
            text,
            pattern,
            from + if pattern.len() == 0 {
                1
            } else {
                pattern.len() as int
            },
        )
    } else {
        disjoint_matches(text, pattern, from + 1)
    }
}

/// Counts the occurrences of a pattern from character `from` on, overlapping ones too.
pub open spec fn all_matches(text: Seq<char>, pattern: Seq<char>, from: int) -> nat
    decreases text.len() + 1 - from,
{
    if from < 0 || from > text.len() - pattern.len() {
        0
    } else if occurs_at(text, pattern, from) {
        1 + all_matches(text, pattern, from + 1)
    } else {
        all_matches(text, pattern, from + 1)
    }
}

/// The position of the first occurrence of a pattern from character `from` on.
pub open spec fn first_match(text: Seq<char>, pattern: Seq<char>, from: int) -> Option<int>
    decreases text.len() + 1 - from,
{
    if from < 0 || from > text.len() - pattern.len() {
        None
    } else if occurs_at(text, pattern, from) {
        Some(from)
    } else {
        first_match(text, pattern, from + 1)
    }
}

/// The text with the span of `length` characters at `at` replaced by `new`.
pub open spec fn spliced(text: Seq<char>, at: int, length: nat, new: Seq<char>) -> Seq<char> {
    text.take(at) + new + text.skip(at + length)
}

/// Why a replacement was refused.
#[derive(Debug, Clone, Copy, PartialEq, Eq)]
pub enum EditRefusal {
    /// The old text does not occur.
    NotFound,
    /// The old text occurs more than once.
    Ambiguous {
        /// How many disjoint occurrences there are; where all overlap, how many there are at all.
        matches: u128,
    },
}

/// The model of an [`EditRefusal`].
pub enum EditRefusalView {
    /// The old text does not occur.
    NotFound,
    /// The old text occurs more than once.
    Ambiguous {
        /// How many disjoint occurrences there are; where all overlap, how many there are at all.
        matches: nat,
    },
}

impl View for EditRefusal {
    type V = EditRefusalView;

    open spec fn view(&self) -> EditRefusalView {
        match self {
            EditRefusal::NotFound => EditRefusalView::NotFound,
            EditRefusal::Ambiguous { matches } => EditRefusalView::Ambiguous {
                matches: *matches as nat,
            },
        }
    }
}

/// What replacing `old` by `new` gives: the edited text where `old` occurs exactly once.
pub open spec fn edit(text: Seq<char>, old: Seq<char>, new: Seq<char>) -> Result<
    Seq<char>,
    EditRefusalView,
> {
    let disjoint = disjoint_matches(text, old, 0);
    let all = all_matches(text, old, 0);
    if all == 0 {
        Err(EditRefusalView::NotFound)
    } else if all == 1 {
        Ok(spliced(text, first_match(text, old, 0)->0, old.len(), new))
    } else if disjoint >= 2 {
        Err(EditRefusalView::Ambiguous { matches: disjoint })
    } else {
        Err(EditRefusalView::Ambiguous { matches: all })
    }
}

/// Decides whether the pattern stands at `at`.
fn pattern_at(text: &Vec<char>, pattern: &Vec<char>, at: usize) -> (found: bool)
    requires
        at + pattern.len() <= text.len(),
    ensures
        found == occurs_at(text@, pattern@, at as int),
{
    let mut i: usize = 0;
    while i < pattern.len()
        invariant
            i <= pattern@.len(),
            at + pattern.len() <= text.len(),
            forall|j: int| 0 <= j < i ==> text@[at + j] == #[trigger] pattern@[j],
        decreases pattern@.len() - i,
    {
        if text[at + i] != pattern[i] {
            assert(text@.subrange(at as int, at + pattern@.len())[i as int] != pattern@[i as int]);
            return false;
        }
        i += 1;
    }
    assert(text@.subrange(at as int, at + pattern@.len()) =~= pattern@);
    true
}

/// Counts the disjoint occurrences of a pattern.
fn count_disjoint(text: &Vec<char>, pattern: &Vec<char>) -> (matches: u128)
    ensures
        matches == disjoint_matches(text@, pattern@, 0),
{
    let mut matches: u128 = 0;
    if pattern.len() > text.len() {
        return 0;
    }
    let last: usize = text.len() - pattern.len();
    let mut from: usize = 0;
    let mut done: bool = false;
    while !done
        invariant
            last == text@.len() - pattern@.len(),
            !done ==> from <= last,
            !done ==> matches <= from,
            matches <= last + 1,
            done ==> matches == disjoint_matches(text@, pattern@, 0),
            !done ==> matches + disjoint_matches(text@, pattern@, from as int) == disjoint_matches(
                text@,
                pattern@,
                0,
            ),
        decreases last + 1 - from, if done { 0int } else { 1int },
    {
        if pattern_at(text, pattern, from) {
            matches = matches + 1;
            let step: usize = if pattern.len() == 0 {
                1
            } else {
                pattern.len()
            };
            if last - from < step {
                assert(disjoint_matches(text@, pattern@, from + step) == 0);
                done = true;
            } else {
                from = from + step;
            }
        } else if from == last {
            assert(disjoint_matches(text@, pattern@, from + 1) == 0);
            done = true;
        } else {
            from = from + 1;
        }
    }
    matches
}

/// Counts all occurrences of a pattern and finds the first one.
fn find_matches(text: &Vec<char>, pattern: &Vec<char>) -> (found: (u128, usize))
    ensures
        found.0 == all_matches(text@, pattern@, 0),
        found.0 > 0 ==> first_match(text@, pattern@, 0) == Some(found.1 as int),
{
    let mut matches: u128 = 0;
    let mut first: usize = 0;
    if pattern.len() > text.len() {
        return (0, 0);
    }
    let last: usize = text.len() - pattern.len();
    let mut from: usize = 0;
    let mut done: bool = false;
    while !done
        invariant
            last == text@.len() - pattern@.len(),
            !done ==> from <= last,
            !done ==> matches <= from,
            matches <= last + 1,
            done ==> matches == all_matches(text@, pattern@, 0),
            !done ==> matches + all_matches(text@, pattern@, from as int) == all_matches(
                text@,
                pattern@,
                0,
            ),
            !done && matches == 0 ==> first_match(text@, pattern@, 0) == first_match(
                text@,
                pattern@,
                from as int,
            ),
            matches > 0 ==> first_match(text@, pattern@, 0) == Some(first as int),
        decreases last + 1 - from, if done { 0int } else { 1int },
    {
        if pattern_at(text, pattern, from) {
            if matches == 0 {
                first = from;
            }
            matches = matches + 1;
        }
        if from == last {
            assert(all_matches(text@, pattern@, from + 1) == 0);
            done = true;
        } else {
            from = from + 1;
        }
    }
    (matches, first)
}

/// Replaces one exact text span.
///
/// Ambiguous replacements are refused, so the old text must identify exactly one place.
pub fn replace_exactly_one(text: &str, old: &str, new: &str) -> (edited: Result<
    String,
    EditRefusal,
>)
    ensures
        match edited {
            Ok(result) => edit(text@, old@, new@) == Ok::<Seq<char>, EditRefusalView>(result@),
            Err(refusal) => edit(text@, old@, new@) == Err::<Seq<char>, EditRefusalView>(refusal@),
        },
{
    let chars = chars_of(text);
    let pattern = chars_of(old);
    let (all, at) = find_matches(&chars, &pattern);
    if all == 0 {
        return Err(EditRefusal::NotFound);
    }
    if all > 1 {
        let disjoint = count_disjoint(&chars, &pattern);
        let matches: u128 = if disjoint >= 2 {
            disjoint
        } else {
            all
        };
        return Err(EditRefusal::Ambiguous { matches });
    }
    proof {
        lemma_first_match_occurs(text@, old@, 0);
        assert(at + pattern.len() <= chars.len());
    }
    let mut result = text.substring_char(0, at).to_string();
    result.append(new);
    result.append(text.substring_char(at + pattern.len(), chars.len()));
    assert(result@ =~= spliced(text@, at as int, old@.len(), new@));
    Ok(result)
}

/// The first match is an occurrence, and none stands before it.
pub proof fn lemma_first_match_occurs(text: Seq<char>, pattern: Seq<char>, from: int)
    requires
        0 <= from,
    ensures
        match first_match(text, pattern, from) {
            Some(at) => from <= at && occurs_at(text, pattern, at) && forall|i: int|
                from <= i < at ==> !#[trigger] occurs_at(text, pattern, i),
            None => forall|i: int| from <= i ==> !#[trigger] occurs_at(text, pattern, i),
        },
    decreases text.len() + 1 - from,
{
    if from <= text.len() - pattern.len() && !occurs_at(text, pattern, from) {
        lemma_first_match_occurs(text, pattern, from + 1);
    }
}

/// The count is zero exactly where the pattern does not occur at all.
pub proof fn lemma_no_match_means_no_occurrence(text: Seq<char>, pattern: Seq<char>, from: int)
    requires
        0 <= from,
    ensures
        all_matches(text, pattern, from) == 0 <==> first_match(text, pattern, from) is None,
        all_matches(text, pattern, from) == 0 <==> forall|i: int|
            from <= i ==> !#[trigger] occurs_at(text, pattern, i),
    decreases text.len() + 1 - from,
{
    lemma_first_match_occurs(text, pattern, from);
    if from <= text.len() - pattern.len() && !occurs_at(text, pattern, from) {
        lemma_no_match_means_no_occurrence(text, pattern, from + 1);
    }
}

/// Nothing is counted before the first match.
proof fn lemma_counting_starts_at_the_first_match(text: Seq<char>, pattern: Seq<char>, from: int)
    requires
        0 <= from,
        first_match(text, pattern, from) is Some,
    ensures
        all_matches(text, pattern, from) == all_matches(
            text,
            pattern,
            first_match(text, pattern, from)->0,
        ),
    decreases text.len() + 1 - from,
{
    if !occurs_at(text, pattern, from) {
        lemma_counting_starts_at_the_first_match(text, pattern, from + 1);
    }
}

/// Disjoint occurrences are occurrences.
proof fn lemma_disjoint_matches_are_matches(text: Seq<char>, pattern: Seq<char>, from: int)
    requires
        0 <= from,
    ensures
        disjoint_matches(text, pattern, from) <= all_matches(text, pattern, from),
    decreases text.len() + 1 - from,
{
    if from <= text.len() - pattern.len() {
        if occurs_at(text, pattern, from) {
            let next = from + if pattern.len() == 0 {
                1
            } else {
                pattern.len() as int
            };
            lemma_disjoint_matches_are_matches(text, pattern, next);
            lemma_later_counts_are_smaller(text, pattern, from + 1, next);
        } else {
            lemma_disjoint_matches_are_matches(text, pattern, from + 1);
        }
    }
}

/// Counting from a later character on counts no more.
proof fn lemma_later_counts_are_smaller(text: Seq<char>, pattern: Seq<char>, from: int, later: int)
    requires
        0 <= from <= later,
    ensures
        all_matches(text, pattern, later) <= all_matches(text, pattern, from),
    decreases later - from,
{
    if from < later {
        lemma_later_counts_are_smaller(text, pattern, from + 1, later);
    }
}

/// A replacement is accepted exactly where the old text occurs at one place and no other, whether
/// or not occurrences overlap; it is not found exactly where the old text does not occur; and a
/// refusal for ambiguity reports two occurrences at least.
pub proof fn lemma_edit_needs_one_site(text: Seq<char>, old: Seq<char>, new: Seq<char>)
    ensures
        edit(text, old, new) is Ok <==> exists|k: int|
            #[trigger] occurs_at(text, old, k) && forall|i: int| #[trigger]
                occurs_at(text, old, i) ==> i == k,
        edit(text, old, new) == Err::<Seq<char>, EditRefusalView>(EditRefusalView::NotFound)
            <==> forall|i: int| !#[trigger] occurs_at(text, old, i),
        edit(text, old, new) matches Err(EditRefusalView::Ambiguous { matches }) ==> 2 <= matches
            <= all_matches(text, old, 0),
{
    lemma_no_match_means_no_occurrence(text, old, 0);
    lemma_first_match_occurs(text, old, 0);
    lemma_disjoint_matches_are_matches(text, old, 0);
    if first_match(text, old, 0) is Some {
        let at = first_match(text, old, 0)->0;
        lemma_counting_starts_at_the_first_match(text, old, 0);
        lemma_no_match_means_no_occurrence(text, old, at + 1);
        assert(all_matches(text, old, at) == 1 + all_matches(text, old, at + 1));
        if edit(text, old, new) is Ok {
            assert(occurs_at(text, old, at));
            assert forall|i: int| #[trigger] occurs_at(text, old, i) implies i == at by {
                assert(!(at + 1 <= i));
            }
        } else {
            let other = choose|i: int| at + 1 <= i && #[trigger] occurs_at(text, old, i);
            assert(occurs_at(text, old, at) && occurs_at(text, old, other));
        }
    }
}

/// The old text of an accepted replacement identifies the place that is edited: it occurs nowhere
/// else.
pub proof fn lemma_edit_site_is_unique(text: Seq<char>, old: Seq<char>, new: Seq<char>, other: int)
    requires
        edit(text, old, new) is Ok,
        occurs_at(text, old, other),
    ensures
        first_match(text, old, 0) == Some(other),
{
    lemma_edit_needs_one_site(text, old, new);
    lemma_no_match_means_no_occurrence(text, old, 0);
    lemma_first_match_occurs(text, old, 0);
}

/// A replacement touches one span only: putting the old text back there restores the text.
pub proof fn lemma_edit_replaces_one_span(text: Seq<char>, old: Seq<char>, new: Seq<char>)
    requires
        edit(text, old, new) is Ok,
    ensures
        first_match(text, old, 0) is Some,
        spliced(edit(text, old, new)->Ok_0, first_match(text, old, 0)->0, new.len(), old) == text,
{
    lemma_no_match_means_no_occurrence(text, old, 0);
    lemma_first_match_occurs(text, old, 0);
    let at = first_match(text, old, 0)->0;
    let edited = edit(text, old, new)->Ok_0;
    assert(edited.take(at) =~= text.take(at));
    assert(edited.skip(at + new.len()) =~= text.skip(at + old.len()));
    assert(spliced(edited, at, new.len(), old) =~= text);
}

} // verus!
