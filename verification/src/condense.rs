//! Condensing a forecast that arrives in several parts into one line.
//!
//! The short forecast is published as a list of parts, one per day. The
//! stored text is a single line: every line break inside a part is dropped,
//! and the parts are joined by single spaces.

use vstd::prelude::*;
use vstd::string::*;

verus! {

/// The character that separates two parts of a condensed forecast.
pub const PART_SEPARATOR: char = ' ';

/// The text without its line breaks; every other character stays, in order.
pub open spec fn without_line_breaks(text: Seq<char>) -> Seq<char> {
    text.filter(|c: char| c != '\n')
}

/// The parts, each without its line breaks, joined by [`PART_SEPARATOR`].
/// No separator stands before the first part or after the last.
pub open spec fn condensed(parts: Seq<Seq<char>>) -> Seq<char>
    decreases parts.len(),
{
    if parts.len() == 0 {
        Seq::empty()
    } else if parts.len() == 1 {
        without_line_breaks(parts[0])
    } else {
        condensed(parts.drop_last()).push(PART_SEPARATOR) + without_line_breaks(parts.last())
    }
}

/// Appending a character to a text appends it to the text without line
/// breaks too, unless the character is a line break.
pub proof fn lemma_without_line_breaks_push(text: Seq<char>, c: char)
    ensures
        without_line_breaks(text.push(c)) == if c != '\n' {
            without_line_breaks(text).push(c)
        } else {
            without_line_breaks(text)
        },
{
    reveal(Seq::filter);
    assert(text.push(c).drop_last() =~= text);
}

/// No line break is left in a text without line breaks, and a text that
/// holds none is left as it is.
pub proof fn lemma_without_line_breaks_holds_none(text: Seq<char>)
    ensures
        !without_line_breaks(text).contains('\n'),
        !text.contains('\n') ==> without_line_breaks(text) == text,
    decreases text.len(),
{
    reveal(Seq::filter);
    if text.len() > 0 {
        let front = text.drop_last();
        lemma_without_line_breaks_holds_none(front);
        assert(front.push(text.last()) =~= text);
        lemma_without_line_breaks_push(front, text.last());
        if !text.contains('\n') {
            assert forall|i: int| 0 <= i < front.len() implies front[i] != '\n' by {
                assert(text[i] == front[i]);
            }
            assert(text.last() == text[text.len() - 1]);
        }
    }
}

/// Copies `text` without its line breaks.
pub fn remove_line_breaks(text: &str) -> (stripped: String)
    ensures
        stripped@ == without_line_breaks(text@),
        !stripped@.contains('\n'),
{
    let mut stripped: String = String::new();
    proof {
        reveal(Seq::filter);
        assert(text@.subrange(0, 0) =~= Seq::<char>::empty());
    }
    for c in it: text.chars()
        invariant
            it.seq() == text@,
            stripped@ == without_line_breaks(text@.subrange(0, it.index() as int)),
    {
        proof {
            let seen: int = it.index() as int;
            assert(text@.subrange(0, seen + 1) =~= text@.subrange(0, seen).push(c));
            lemma_without_line_breaks_push(text@.subrange(0, seen), c);
        }
        if c != '\n' {
            stripped.push(c);
        }
    }
    proof {
        assert(text@.subrange(0, text@.len() as int) =~= text@);
        lemma_without_line_breaks_holds_none(text@);
    }
    stripped
}

/// Builds the one-line forecast from the parts as they were fetched.
pub fn condense_forecast(parts: &Vec<String>) -> (forecast: String)
    ensures
        forecast@ == condensed(parts.deep_view()),
{
    let mut forecast: String = String::new();
    let mut taken: usize = 0;
    proof {
        assert(parts.deep_view().subrange(0, 0) =~= Seq::<Seq<char>>::empty());
    }
    while taken < parts.len()
        invariant
            taken <= parts.len(),
            forecast@ == condensed(parts.deep_view().subrange(0, taken as int)),
        decreases parts.len() - taken,
    {
        let stripped: String = remove_line_breaks(parts[taken].as_str());
        proof {
            let before = parts.deep_view().subrange(0, taken as int);
            let after = parts.deep_view().subrange(0, taken + 1);
            assert(after.drop_last() =~= before);
            assert(after.last() == parts[taken as int]@);
            if taken > 0 {
                assert(forecast@.push(PART_SEPARATOR) + stripped@ == condensed(after));
            } else {
                assert(Seq::<char>::empty() + stripped@ =~= stripped@);
            }
        }
        if taken > 0 {
            forecast.push(PART_SEPARATOR);
        }
        forecast.append(stripped.as_str());
        taken = taken + 1;
    }
    proof {
        assert(parts.deep_view().subrange(0, parts.len() as int) =~= parts.deep_view());
    }
    forecast
}

} // verus!
