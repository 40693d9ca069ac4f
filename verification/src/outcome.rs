//! What becomes of a line: when it is refused, and for what; when it
//! decodes, and what its first fields are then.
//!
//! Only three things can make a line fail: it is blank, its protocol tag is
//! missing or unknown, or its command is missing or unknown. They are
//! checked in that order, and nothing that follows the command matters.

use crate::enums::Command;
use crate::enums::WireToken;
use crate::error::ParseErrorView;
use crate::message::general_tokens;
use crate::message::is_known_protocol;
use crate::message::zones_of;
use crate::message::MessageView;
use crate::parser::field_at;
use crate::text::is_whitespace;
use crate::text::joined;
use crate::text::lemma_joined_ends;
use crate::text::lemma_joined_free_of;
use crate::text::lemma_joined_pieces;
use crate::text::lemma_joined_starts;
use crate::text::lemma_pieces_concat;
use crate::text::lemma_pieces_of_joined;
use crate::text::lemma_skip_leading_cut;
use crate::text::lemma_skip_trailing_prefix;
use crate::text::lemma_strip_empty;
use crate::text::only;
use crate::text::skip_trailing;
use crate::text::trimmed;
use crate::text::trimmed_of;
use crate::text::whitespace;
use crate::writer::is_field_text;
use vstd::prelude::*;

verus! {

/// A line is refused as empty exactly if it holds nothing but whitespace.
pub proof fn lemma_blank_line(raw: Seq<char>)
    ensures
        MessageView::decode(raw) == Err::<MessageView, ParseErrorView>(ParseErrorView::EmptyMessage)
            <==> forall|i: int| 0 <= i < raw.len() ==> is_whitespace(#[trigger] raw[i]),
{
    lemma_strip_empty(raw, whitespace());
}

/// A line that is not blank, and whose protocol tag is there but is not
/// known, is refused for its protocol, whatever else it holds.
pub proof fn lemma_unknown_protocol(raw: Seq<char>, tag: Seq<char>)
    requires
        trimmed(raw).len() > 0,
        field_at(general_tokens(raw), 0) == Some(tag),
        !is_known_protocol(tag),
    ensures
        MessageView::decode(raw) == Err::<MessageView, ParseErrorView>(
            ParseErrorView::InvalidProtocol(tag),
        ),
{
}

/// A line with a known protocol tag, and whose command is there but is no
/// command, is refused for its command, whatever else it holds.
pub proof fn lemma_unknown_command(raw: Seq<char>, word: Seq<char>)
    requires
        trimmed(raw).len() > 0,
        field_at(general_tokens(raw), 0) matches Some(tag) && is_known_protocol(tag),
        field_at(general_tokens(raw), 1) == Some(word),
        Command::from_token(word) is None,
    ensures
        MessageView::decode(raw) == Err::<MessageView, ParseErrorView>(
            ParseErrorView::InvalidCommand(word),
        ),
{
}

/// A line decodes exactly if it is not blank, its protocol tag is there and
/// known, and its command is there and is a command. No other field can
/// make it fail: the piste and the competition may be absent like any
/// optional field.
pub proof fn lemma_decodes_iff(raw: Seq<char>)
    ensures
        MessageView::decode(raw) is Ok <==> {
            &&& trimmed(raw).len() > 0
            &&& field_at(general_tokens(raw), 0) matches Some(tag) && is_known_protocol(tag)
            &&& field_at(general_tokens(raw), 1) matches Some(word) && Command::from_token(
                word,
            ) is Some
        },
{
}

/// The failures of decoding: a line is refused as empty, for its protocol
/// tag or for its command, and for nothing else.
pub proof fn lemma_failures(raw: Seq<char>)
    ensures
        MessageView::decode(raw) matches Err(error) ==> {
            ||| error == ParseErrorView::EmptyMessage
            ||| error == ParseErrorView::MissingField("protocol"@)
            ||| error is InvalidProtocol
            ||| error == ParseErrorView::MissingField("command"@)
            ||| error is InvalidCommand
        },
{
}

/// The line that starts with the given fields: a bar, the fields with a bar
/// between each two, a bar, and then whatever follows.
pub open spec fn line_with(head: Seq<Seq<char>>, rest: Seq<char>) -> Seq<char> {
    seq!['|'] + joined(head, seq!['|']) + seq!['|'] + rest
}

/// Cutting the characters that satisfy `p` from the end of `s` leaves a
/// prefix of `s` that reaches at least up to `upto`, if the character before
/// `upto` does not satisfy `p`.
proof fn lemma_skip_trailing_reaches(s: Seq<char>, p: spec_fn(char) -> bool, upto: int)
    requires
        0 < upto <= s.len(),
        !p(s[upto - 1]),
    ensures
        upto <= skip_trailing(s, p).len() <= s.len(),
        skip_trailing(s, p) == s.subrange(0, skip_trailing(s, p).len() as int),
{
    lemma_skip_trailing_prefix(s, p);
}

/// The first fields of a line are the fields it was started with, whatever
/// follows them: texts that can stand in a field, set between bars at the
/// start of a line, are read as the first fields of its general zone.
pub proof fn lemma_first_fields(head: Seq<Seq<char>>, rest: Seq<char>, index: int)
    requires
        head.len() >= 1,
        forall|i: int| 0 <= i < head.len() ==> is_field_text(#[trigger] head[i]),
        0 <= index < head.len(),
    ensures
        trimmed(line_with(head, rest)).len() > 0,
        field_at(general_tokens(line_with(head, rest)), index) == Some(head[index]),
{
    let bar = seq!['|'];
    let fields = joined(head, bar);
    let line = line_with(head, rest);
    let n = fields.len() as int;

    // The fields, joined: they start and end with a character that is no
    // bar, and hold no percent sign.
    lemma_joined_ends(head, bar);
    lemma_joined_free_of(head, bar, '%');
    lemma_pieces_of_joined(head, '|');

    // Whitespace is cut from the end alone, and not beyond the bar that
    // follows the fields.
    lemma_skip_trailing_reaches(line, whitespace(), n + 2);
    let kept = trimmed(line);

    // Of the bars, the first is cut at the start, and none of the fields'
    // characters at the end.
    lemma_skip_leading_cut(kept, only('|'), 1);
    let tail = kept.subrange(1, kept.len() as int);
    lemma_skip_trailing_reaches(tail, only('|'), n);
    let inner = trimmed_of(kept, '|');

    // The general zone reaches at least as far as the fields, which hold no
    // percent sign.
    let zones = zones_of(kept);
    lemma_joined_pieces(inner, '%');
    lemma_joined_starts(zones, '%');
    let zone = zones[0];

    // Of the zone, no bar is cut at the start, and none of the fields'
    // characters at the end.
    lemma_skip_trailing_reaches(zone, only('|'), n);
    let bare = trimmed_of(zone, '|');

    // What is left starts with the fields; a bar follows them, or nothing.
    if bare.len() == n {
        assert(bare =~= fields);
    } else {
        let more = bare.subrange(n + 1, bare.len() as int);
        assert(bare =~= fields.push('|') + more);
        lemma_pieces_concat(fields, more, '|');
    }
}

/// A line whose first field is a protocol tag that is not known is refused
/// for its protocol, whatever follows the tag.
pub proof fn lemma_line_with_unknown_protocol(tag: Seq<char>, rest: Seq<char>)
    requires
        is_field_text(tag),
        !is_known_protocol(tag),
    ensures
        MessageView::decode(line_with(seq![tag], rest)) == Err::<MessageView, ParseErrorView>(
            ParseErrorView::InvalidProtocol(tag),
        ),
{
    lemma_first_fields(seq![tag], rest, 0);
}

/// A line whose first field is a known protocol tag, and whose second is
/// no command, is refused for its command, whatever follows it.
pub proof fn lemma_line_with_unknown_command(tag: Seq<char>, word: Seq<char>, rest: Seq<char>)
    requires
        is_known_protocol(tag),
        is_field_text(word),
        Command::from_token(word) is None,
    ensures
        MessageView::decode(line_with(seq![tag, word], rest)) == Err::<MessageView, ParseErrorView>(
            ParseErrorView::InvalidCommand(word),
        ),
{
    lemma_known_protocol_is_field_text(tag);
    lemma_first_fields(seq![tag, word], rest, 0);
    lemma_first_fields(seq![tag, word], rest, 1);
}

/// A line whose first field is a known protocol tag, and whose second is a
/// command, decodes to a message with that tag and that command, whatever
/// follows them.
pub proof fn lemma_line_with_command(tag: Seq<char>, word: Seq<char>, rest: Seq<char>)
    requires
        is_known_protocol(tag),
        is_field_text(word),
        Command::from_token(word) is Some,
    ensures
        MessageView::decode(line_with(seq![tag, word], rest)) matches Ok(message)
            && message.protocol == tag && Some(message.command) == Command::from_token(word),
{
    lemma_known_protocol_is_field_text(tag);
    lemma_first_fields(seq![tag, word], rest, 0);
    lemma_first_fields(seq![tag, word], rest, 1);
}

/// A known protocol tag can stand in a field.
proof fn lemma_known_protocol_is_field_text(tag: Seq<char>)
    requires
        is_known_protocol(tag),
    ensures
        is_field_text(tag),
{
    reveal_strlit("EFP1");
    reveal_strlit("EFP1.1");
}

} // verus!
