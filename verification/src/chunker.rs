//! Cutting a text into fragments of bounded length.
//!
//! Lengths are counted in characters (Unicode scalar values), never in bytes,
//! so a fragment boundary cannot fall inside a character.

use vstd::prelude::*;
use vstd::string::*;

verus! {

/// The longest fragment, in characters, that the messaging transport takes.
pub const TEXT_MESSAGE_LENGTH: usize = 160;

/// How many fragments a text of `length` characters is cut into: the length
/// divided by `max_length`, rounded up. A `max_length` of zero admits no
/// fragment at all.
pub open spec fn chunk_count(length: nat, max_length: nat) -> nat {
    if max_length == 0 {
        0
    } else {
        ((length + max_length - 1) / (max_length as int)) as nat
    }
}

/// The fragment at position `index`: the characters from `index * max_length`
/// up to the next multiple of `max_length`, or up to the end of the text where
/// that comes first.
pub open spec fn chunk_at(text: Seq<char>, max_length: nat, index: int) -> Seq<char> {
    let start = index * max_length;
    let end = if start + max_length <= text.len() {
        start + max_length
    } else {
        text.len() as int
    };
    text.subrange(start, end)
}

/// The fragments of `text`, in order.
pub open spec fn chunks_of(text: Seq<char>, max_length: nat) -> Seq<Seq<char>> {
    Seq::new(chunk_count(text.len(), max_length), |index: int| chunk_at(text, max_length, index))
}

/// The fragment count is the least number of fragments of `max_length`
/// characters that cover `length` characters.
pub proof fn lemma_chunk_count_is_least_cover(length: nat, max_length: nat)
    requires
        max_length >= 1,
    ensures
        chunk_count(length, max_length) * max_length >= length,
        length > 0 ==> (chunk_count(length, max_length) - 1) * max_length < length,
        length == 0 ==> chunk_count(length, max_length) == 0,
{
    let d: int = max_length as int;
    let x: int = length + max_length - 1;
    let q: int = x / d;
    let r: int = x % d;
    vstd::arithmetic::div_mod::lemma_fundamental_div_mod(x, d);
    vstd::arithmetic::div_mod::lemma_mod_pos_bound(x, d);
    assert(q * d == d * q) by (nonlinear_arith);
    assert((q - 1) * d == q * d - d) by (nonlinear_arith);
    if length == 0 {
        assert(q == 0) by (nonlinear_arith)
            requires
                x == d * q + r,
                0 <= r < d,
                x == d - 1,
                d >= 1,
        ;
    } else {
        assert(q >= 1) by (nonlinear_arith)
            requires
                x == d * q + r,
                0 <= r < d,
                x >= d,
                d >= 1,
        ;
    }
}

/// Only one count both covers the text and has no fragment to spare.
proof fn lemma_least_cover_is_unique(length: nat, max_length: nat, count: nat)
    requires
        max_length >= 1,
        count * max_length >= length,
        count > 0 ==> (count - 1) * max_length < length,
    ensures
        count == chunk_count(length, max_length),
{
    lemma_chunk_count_is_least_cover(length, max_length);
    let n: int = chunk_count(length, max_length) as int;
    let k: int = count as int;
    let d: int = max_length as int;
    if k < n {
        assert(k * d <= (n - 1) * d) by (nonlinear_arith)
            requires
                k <= n - 1,
                d >= 1,
        ;
    } else if k > n {
        assert(n * d <= (k - 1) * d) by (nonlinear_arith)
            requires
                n <= k - 1,
                d >= 1,
        ;
    }
}

/// Every fragment but the last holds exactly `max_length` characters, and the
/// last holds between one and `max_length`: no fragment is empty.
pub proof fn lemma_chunk_lengths(text: Seq<char>, max_length: nat, index: int)
    requires
        max_length >= 1,
        0 <= index < chunk_count(text.len(), max_length),
    ensures
        1 <= chunks_of(text, max_length)[index].len() <= max_length,
        index + 1 < chunk_count(text.len(), max_length) ==> chunks_of(text, max_length)[index].len()
            == max_length,
        index * max_length + chunks_of(text, max_length)[index].len() <= text.len(),
{
    lemma_chunk_count_is_least_cover(text.len(), max_length);
    let n: int = chunk_count(text.len(), max_length) as int;
    let d: int = max_length as int;
    assert(index * d <= (n - 1) * d) by (nonlinear_arith)
        requires
            index <= n - 1,
            d >= 1,
    ;
    assert(0 <= index * d) by (nonlinear_arith)
        requires
            0 <= index,
            d >= 1,
    ;
    if index + 1 < n {
        assert((index + 1) * d <= (n - 1) * d) by (nonlinear_arith)
            requires
                index + 1 <= n - 1,
                d >= 1,
        ;
        assert((index + 1) * d == index * d + d) by (nonlinear_arith);
    }
}

/// The first `count` fragments, concatenated, are the text up to the end of
/// the last of them.
proof fn lemma_chunk_prefix(text: Seq<char>, max_length: nat, count: nat)
    requires
        max_length >= 1,
        count <= chunk_count(text.len(), max_length),
    ensures
        chunks_of(text, max_length).subrange(0, count as int).flatten() == text.subrange(
            0,
            if count * max_length <= text.len() {
                (count * max_length) as int
            } else {
                text.len() as int
            },
        ),
    decreases count,
{
    let all = chunks_of(text, max_length);
    if count == 0 {
        assert(0 * max_length == 0) by (nonlinear_arith);
        assert(all.subrange(0, 0) =~= Seq::<Seq<char>>::empty());
        assert(all.subrange(0, 0).flatten() =~= text.subrange(0, 0));
    } else {
        let before: nat = (count - 1) as nat;
        lemma_chunk_prefix(text, max_length, before);
        lemma_chunk_lengths(text, max_length, before as int);
        lemma_chunk_count_is_least_cover(text.len(), max_length);
        assert((before + 1) * max_length == before * max_length + max_length)
            by (nonlinear_arith);
        assert(all.subrange(0, count as int) =~= all.subrange(0, before as int).push(
            all[before as int],
        ));
        all.subrange(0, before as int).lemma_flatten_push(all[before as int]);
        let cut: int = (before * max_length) as int;
        assert(cut + all[before as int].len() <= text.len());
        assert(all.subrange(0, before as int).flatten() == text.subrange(0, cut));
        assert(text.subrange(0, cut) + all[before as int] =~= text.subrange(
            0,
            cut + all[before as int].len(),
        ));
    }
}

/// Concatenating the fragments in order gives back the text, whatever the
/// positive fragment length.
pub proof fn lemma_chunks_round_trip(text: Seq<char>, max_length: nat)
    requires
        max_length >= 1,
    ensures
        chunks_of(text, max_length).flatten() == text,
{
    let all = chunks_of(text, max_length);
    lemma_chunk_prefix(text, max_length, all.len());
    lemma_chunk_count_is_least_cover(text.len(), max_length);
    assert(all.subrange(0, all.len() as int) =~= all);
    assert(text.subrange(0, text.len() as int) =~= text);
}

/// The empty text has no fragments: not even an empty one.
pub proof fn lemma_chunks_of_empty(max_length: nat)
    ensures
        chunks_of(Seq::<char>::empty(), max_length) == Seq::<Seq<char>>::empty(),
{
    if max_length >= 1 {
        lemma_chunk_count_is_least_cover(0, max_length);
    }
    assert(chunks_of(Seq::<char>::empty(), max_length) =~= Seq::<Seq<char>>::empty());
}

/// A text whose length is `count` times the fragment length is cut into
/// exactly `count` fragments, each of the full length: no empty fragment
/// trails behind.
pub proof fn lemma_chunks_of_exact_multiple(text: Seq<char>, max_length: nat, count: nat)
    requires
        max_length >= 1,
        text.len() == count * max_length,
    ensures
        chunks_of(text, max_length).len() == count,
        forall|index: int|
            0 <= index < count ==> (#[trigger] chunks_of(text, max_length)[index]).len()
                == max_length,
{
    if count > 0 {
        assert((count - 1) * max_length == count * max_length - max_length) by (nonlinear_arith);
    }
    lemma_least_cover_is_unique(text.len(), max_length, count);
    assert forall|index: int| 0 <= index < count implies (#[trigger] chunks_of(
        text,
        max_length,
    )[index]).len() == max_length by {
        lemma_chunk_lengths(text, max_length, index);
        assert((index + 1) * max_length <= count * max_length) by (nonlinear_arith)
            requires
                index + 1 <= count,
                max_length >= 1,
        ;
        assert((index + 1) * max_length == index * max_length + max_length) by (nonlinear_arith);
    }
}

/// Cuts `text` into fragments of at most `max_length` characters.
///
/// The text is consumed front to back: fragments of exactly `max_length`
/// characters as long as that many remain, then the remainder as a last,
/// shorter fragment. Cutting stops as soon as a fragment would be empty, so
/// the empty text yields no fragment, and so does a `max_length` of zero.
/// For every positive `max_length` the fragments concatenate to the text.
pub fn chunk(text: &str, max_length: usize) -> (chunks: Vec<String>)
    ensures
        chunks.deep_view() == chunks_of(text@, max_length as nat),
        max_length >= 1 ==> chunks.deep_view().flatten() == text@,
{
    let mut chunks: Vec<String> = Vec::new();
    if max_length == 0 {
        assert(chunks.deep_view() =~= chunks_of(text@, 0));
        return chunks;
    }
    let mut piece: String = String::new();
    let mut filled: usize = 0;
    proof {
        assert(0 * max_length == 0) by (nonlinear_arith);
    }
    for c in it: text.chars()
        invariant
            max_length >= 1,
            it.seq() == text@,
            filled < max_length,
            it.index() == chunks.len() * max_length + filled,
            piece@ == text@.subrange(chunks.len() * max_length, it.index() as int),
            forall|index: int|
                0 <= index < chunks.len() ==> (#[trigger] chunks[index])@ == chunk_at(
                    text@,
                    max_length as nat,
                    index,
                ),
    {
        proof {
            let done: int = chunks.len() as int;
            let seen: int = it.index() as int;
            assert((done + 1) * max_length == done * max_length + max_length)
                by (nonlinear_arith);
            assert(text@.subrange(done * max_length, seen).push(c) =~= text@.subrange(
                done * max_length,
                seen + 1,
            ));
        }
        piece.push(c);
        filled = filled + 1;
        if filled == max_length {
            chunks.push(piece);
            piece = String::new();
            filled = 0;
            proof {
                let seen: int = it.index() as int;
                assert(text@.subrange(seen + 1, seen + 1) =~= Seq::<char>::empty());
            }
        }
    }
    proof {
        let done: int = chunks.len() as int;
        assert((done + 1) * max_length == done * max_length + max_length) by (nonlinear_arith);
        assert((done - 1) * max_length == done * max_length - max_length) by (nonlinear_arith);
    }
    if filled > 0 {
        chunks.push(piece);
    }
    proof {
        lemma_least_cover_is_unique(text@.len(), max_length as nat, chunks.len() as nat);
        assert(chunks.deep_view() =~= chunks_of(text@, max_length as nat));
        lemma_chunks_round_trip(text@, max_length as nat);
    }
    chunks
}

/// Cuts a forecast into fragments that each fit one text message of
/// [`TEXT_MESSAGE_LENGTH`] characters.
pub fn split_string_into_sms_message_lengths(forecast: &String) -> (sub_string: Vec<String>)
    ensures
        sub_string.deep_view() == chunks_of(forecast@, TEXT_MESSAGE_LENGTH as nat),
        sub_string.deep_view().flatten() == forecast@,
{
    chunk(forecast.as_str(), TEXT_MESSAGE_LENGTH)
}

} // verus!
