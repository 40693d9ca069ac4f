//! A zone of a line: tokens with a bar between each two, and bars around
//! them.
//!
//! Reading a zone strips the bars at both ends before it cuts at each bar.
//! So the empty tokens at the end of a zone are lost, which changes no
//! field; and so are empty tokens at its start, which would shift the fields
//! that follow. The lemmas here say when a zone reads back as the tokens it
//! was written from.

use crate::parser::field_at;
use crate::text::free_of;
use crate::text::joined;
use crate::text::lemma_joined_ends;
use crate::text::lemma_pieces_free_of;
use crate::text::lemma_pieces_free_of_separator;
use crate::text::lemma_pieces_of_joined;
use crate::text::lemma_skip_trailing_prefix;
use crate::text::lemma_strip_all;
use crate::text::lemma_strip_free_of;
use crate::text::lemma_strip_range;
use crate::text::only;
use crate::text::pieces;
use crate::text::skip_trailing;
use crate::text::split;
use crate::text::strip;
use crate::text::trim_matches;
use crate::text::trimmed_of;
use crate::writer::empty_token;
use crate::writer::is_token;
use vstd::prelude::*;

verus! {

/// The tokens of a zone: the zone without the bars at its ends, cut at each
/// bar.
pub open spec fn zone_tokens(zone: Seq<char>) -> Seq<Seq<char>> {
    pieces(trimmed_of(zone, '|'), '|')
}

/// Cuts a zone into its tokens.
pub fn zone_fields<'a>(zone: &'a str) -> (r: Vec<&'a str>)
    ensures
        r.deep_view() == zone_tokens(zone@),
{
    split(trim_matches(zone, '|'), '|')
}

/// Whether `s` holds nothing but `c`.
pub open spec fn all_of(s: Seq<char>, c: char) -> bool {
    forall|i: int| 0 <= i < s.len() ==> #[trigger] s[i] == c
}

/// Dropping the empty tokens at the end of a list neither removes nor moves
/// a field: the field at each index stays what it was.
pub proof fn lemma_trailing_trim_keeps_fields(tokens: Seq<Seq<char>>, index: int)
    ensures
        field_at(skip_trailing(tokens, empty_token()), index) == field_at(tokens, index),
{
    lemma_skip_trailing_prefix(tokens, empty_token());
}

/// Joined tokens are the joined tokens up to the last one that is not
/// empty, followed by separators only.
proof fn lemma_joined_trailing_empty(tokens: Seq<Seq<char>>, sep: char)
    ensures
        joined(skip_trailing(tokens, empty_token()), seq![sep]).len() <= joined(
            tokens,
            seq![sep],
        ).len(),
        joined(tokens, seq![sep]).subrange(
            0,
            joined(skip_trailing(tokens, empty_token()), seq![sep]).len() as int,
        ) == joined(skip_trailing(tokens, empty_token()), seq![sep]),
        all_of(
            joined(tokens, seq![sep]).subrange(
                joined(skip_trailing(tokens, empty_token()), seq![sep]).len() as int,
                joined(tokens, seq![sep]).len() as int,
            ),
            sep,
        ),
    decreases tokens.len(),
{
    if tokens.len() > 0 && empty_token()(tokens.last()) {
        let front = tokens.drop_last();
        lemma_joined_trailing_empty(front, sep);
        let whole = joined(tokens, seq![sep]);
        let shorter = joined(front, seq![sep]);
        let kept = joined(skip_trailing(front, empty_token()), seq![sep]);
        let tail = whole.subrange(kept.len() as int, whole.len() as int);
        assert forall|i: int| 0 <= i < tail.len() implies #[trigger] tail[i] == sep by {
            if kept.len() + i < shorter.len() {
                assert(shorter.subrange(kept.len() as int, shorter.len() as int)[i] == sep);
            }
        }
    }
}

/// Stripping the separators from the ends of joined tokens, with more
/// separators before and after them, leaves the joined tokens up to the last
/// one that is not empty, provided that the first token is not empty unless
/// all are.
proof fn lemma_strip_joined(
    before: Seq<char>,
    tokens: Seq<Seq<char>>,
    after: Seq<char>,
    sep: char,
)
    requires
        all_of(before, sep),
        all_of(after, sep),
        forall|i: int| 0 <= i < tokens.len() ==> free_of(#[trigger] tokens[i], sep),
        skip_trailing(tokens, empty_token()).len() > 0 ==> tokens[0].len() > 0,
    ensures
        strip(before + joined(tokens, seq![sep]) + after, only(sep)) == joined(
            skip_trailing(tokens, empty_token()),
            seq![sep],
        ),
{
    let kept = skip_trailing(tokens, empty_token());
    let whole = joined(tokens, seq![sep]);
    let core = joined(kept, seq![sep]);
    let zone = before + whole + after;
    lemma_joined_trailing_empty(tokens, sep);
    lemma_skip_trailing_prefix(tokens, empty_token());
    let tail = whole.subrange(core.len() as int, whole.len() as int);
    assert forall|i: int| before.len() + core.len() <= i < zone.len() implies only(sep)(
        #[trigger] zone[i],
    ) by {
        if i < before.len() + whole.len() {
            assert(zone[i] == tail[i - before.len() - core.len()]);
        }
    }
    if kept.len() == 0 {
        lemma_strip_all(zone, only(sep));
    } else {
        lemma_joined_ends(kept, seq![sep]);
        let from = before.len() as int;
        lemma_strip_range(zone, only(sep), from, from + core.len());
    }
}

/// A zone reads back as the tokens it was written from: tokens free of
/// bars, joined with bars and set between more bars, give a zone whose
/// field at each index is the field of the tokens at that index, provided
/// that the first token is not empty unless all are.
pub proof fn lemma_zone_round_trip(
    before: Seq<char>,
    tokens: Seq<Seq<char>>,
    after: Seq<char>,
    index: int,
)
    requires
        all_of(before, '|'),
        all_of(after, '|'),
        forall|i: int| 0 <= i < tokens.len() ==> free_of(#[trigger] tokens[i], '|'),
        skip_trailing(tokens, empty_token()).len() > 0 ==> tokens[0].len() > 0,
    ensures
        field_at(zone_tokens(before + joined(tokens, seq!['|']) + after), index) == field_at(
            tokens,
            index,
        ),
{
    let kept = skip_trailing(tokens, empty_token());
    lemma_strip_joined(before, tokens, after, '|');
    lemma_skip_trailing_prefix(tokens, empty_token());
    if kept.len() > 0 {
        lemma_pieces_of_joined(kept, '|');
    }
}

/// Tokens free of bars, written without the empty ones at the end and with
/// a bar between each two, are cut at the bars into tokens whose field at
/// each index is the field of the tokens written, at that index.
pub proof fn lemma_trimmed_tokens_round_trip(tokens: Seq<Seq<char>>, index: int)
    requires
        forall|i: int| 0 <= i < tokens.len() ==> free_of(#[trigger] tokens[i], '|'),
    ensures
        field_at(pieces(joined(skip_trailing(tokens, empty_token()), seq!['|']), '|'), index)
            == field_at(tokens, index),
{
    let kept = skip_trailing(tokens, empty_token());
    lemma_skip_trailing_prefix(tokens, empty_token());
    if kept.len() > 0 {
        lemma_pieces_of_joined(kept, '|');
    }
}

/// The tokens of a zone hold no separator, if the zone holds no percent
/// sign.
pub proof fn lemma_zone_tokens_are_tokens(zone: Seq<char>)
    requires
        free_of(zone, '%'),
    ensures
        forall|i: int|
            0 <= i < zone_tokens(zone).len() ==> is_token(#[trigger] zone_tokens(zone)[i]),
{
    let inner = trimmed_of(zone, '|');
    lemma_strip_free_of(zone, only('|'), '%');
    lemma_pieces_free_of(inner, '|', '%');
    lemma_pieces_free_of_separator(inner, '|');
}

} // verus!
