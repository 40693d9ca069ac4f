//! Writing a message and reading the line again.
//!
//! A message that was read from a line is written as a line that reads as
//! the same message, but for one thing: a fencer whose first field is absent
//! while a later one is present. The zone of such a fencer starts with bars,
//! and a reader takes them for the bars around the zone.

use crate::enums::Command;
use crate::enums::WireToken;
use crate::fencer::lemma_fencer_tokens;
use crate::fencer::lemma_fencer_zone_round_trip;
use crate::fencer::FencerView;
use crate::message::fencer_in;
use crate::message::zones_of;
use crate::message::MessageView;
use crate::parser::field_at;
use crate::text::free_of;
use crate::text::joined;
use crate::text::lemma_joined_ends;
use crate::text::lemma_joined_free_of;
use crate::text::lemma_pieces_free_of_separator;
use crate::text::lemma_pieces_of_joined;
use crate::text::lemma_skip_trailing_prefix;
use crate::text::lemma_strip_range;
use crate::text::only;
use crate::text::skip_trailing;
use crate::text::trimmed;
use crate::text::trimmed_of;
use crate::writer::empty_token;
use crate::writer::is_token;
use crate::writer::lemma_number_token;
use crate::writer::lemma_value_token;
use crate::writer::text_token;
use crate::zone::lemma_zone_round_trip;
use crate::zone::lemma_zone_tokens_are_tokens;
use crate::zone::zone_tokens;
use vstd::prelude::*;

verus! {

/// The seventeen tokens of a canonical message hold no separator, and read
/// as the fields of the message.
proof fn lemma_message_tokens(message: MessageView, zones: Seq<Seq<char>>)
    requires
        message.is_canonical(),
    ensures
        message.tokens().len() == 17,
        forall|i: int| 0 <= i < 17 ==> is_token(#[trigger] message.tokens()[i]),
        field_at(message.tokens(), 0) == Some(message.protocol),
        field_at(message.tokens(), 1) == Some(message.command.token()),
        Command::from_token(message.command.token()) == Some(message.command),
        MessageView::assemble(message.protocol, message.command, message.tokens(), zones) == (
        MessageView {
            right_fencer: fencer_in(zones, 1),
            left_fencer: fencer_in(zones, 2),
            ..message
        }),
{
    reveal_strlit("EFP1");
    reveal_strlit("EFP1");
    reveal_strlit("EFP1.1");
    let tokens = message.tokens();
    message.command.lemma_token_reads_back();
    assert(text_token(field_at(tokens, 2)) =~= message.piste);
    assert(text_token(field_at(tokens, 3)) =~= message.competition_id);
    lemma_number_token(tokens, 4, message.phase);
    lemma_number_token(tokens, 6, message.match_number);
    lemma_number_token(tokens, 7, message.round);
    lemma_value_token(tokens, 10, message.competition_type);
    lemma_value_token(tokens, 11, message.weapon);
    lemma_value_token(tokens, 12, message.priority);
    lemma_value_token(tokens, 13, message.state);
}

/// The zone of a canonical fencer holds no percent sign.
proof fn lemma_fencer_text_free(fencer: FencerView)
    requires
        fencer.is_canonical(),
    ensures
        free_of(fencer.text(), '%'),
{
    reveal_strlit("|");
    assert("|"@ =~= seq!['|']);
    lemma_fencer_tokens(fencer);
    let tokens = fencer.tokens();
    let kept = skip_trailing(tokens, empty_token());
    lemma_skip_trailing_prefix(tokens, empty_token());
    lemma_joined_free_of(kept, seq!['|'], '%');
}

/// The line of a canonical message is cut into four zones: the general
/// zone, the zones of the two fencers, each with its bars, and an empty one
/// after the last percent sign.
proof fn lemma_zones_of_encoded(message: MessageView)
    requires
        message.is_canonical(),
    ensures
        trimmed(message.encode()) == message.encode(),
        message.encode().len() > 0,
        zones_of(message.encode()) == seq![
            joined(message.tokens(), seq!['|']) + seq!['|'],
            seq!['|'] + message.right_fencer.text() + seq!['|'],
            seq!['|'] + message.left_fencer.text() + seq!['|'],
            Seq::<char>::empty(),
        ],
{
    reveal_strlit("|");
    reveal_strlit("|%|");
    let bar = seq!['|'];
    assert("|"@ =~= bar);
    let general = joined(message.tokens(), bar);
    let right = message.right_fencer.text();
    let left = message.left_fencer.text();
    let line = message.encode();
    let zones = seq![general + bar, bar + right + bar, bar + left + bar, Seq::<char>::empty()];

    lemma_message_tokens(message, zones);
    lemma_joined_ends(message.tokens(), bar);
    lemma_joined_free_of(message.tokens(), bar, '%');
    lemma_fencer_text_free(message.right_fencer);
    lemma_fencer_text_free(message.left_fencer);

    // The line starts and ends with one bar: the protocol tag follows the
    // first, and a percent sign comes before the last.
    let n = line.len() as int;
    assert(line[1] == general[0]);
    lemma_strip_range(line, only('|'), 1, n - 1);
    let inner = line.subrange(1, n - 1);

    // Between the two bars stand the four zones, with a percent sign
    // between each two, and none of them holds a percent sign.
    let sep = seq!['%'];
    assert(joined(zones, sep) =~= inner) by {
        let three = zones.drop_last();
        let two = three.drop_last();
        let one = two.drop_last();
        assert(joined(one, sep) == zones[0]);
        assert(joined(two, sep) == joined(one, sep) + sep + zones[1]);
        assert(joined(three, sep) == joined(two, sep) + sep + zones[2]);
    }
    lemma_pieces_of_joined(zones, '%');
}

/// Reading the line of a canonical message gives the message back: its
/// protocol tag, command, piste, competition and every other field of the
/// general zone, the referee, and each fencer whose first field is present
/// or who has no field at all.
pub proof fn lemma_encode_decode(message: MessageView)
    requires
        message.is_canonical(),
    ensures
        MessageView::decode(message.encode()) matches Ok(read) && read == (MessageView {
            right_fencer: read.right_fencer,
            left_fencer: read.left_fencer,
            ..message
        }),
        message.right_fencer.is_anchored() ==> MessageView::decode(
            message.encode(),
        )->Ok_0.right_fencer == message.right_fencer,
        message.left_fencer.is_anchored() ==> MessageView::decode(
            message.encode(),
        )->Ok_0.left_fencer == message.left_fencer,
{
    reveal_strlit("|");
    let bar = seq!['|'];
    assert("|"@ =~= bar);
    let tokens = message.tokens();
    let zones = zones_of(message.encode());
    lemma_zones_of_encoded(message);
    lemma_message_tokens(message, zones);
    let general = zone_tokens(zones[0]);
    assert forall|index: int| field_at(general, index) == field_at(tokens, index) by {
        lemma_zone_round_trip(Seq::<char>::empty(), tokens, bar, index);
    }
    if message.right_fencer.is_anchored() {
        lemma_fencer_zone_round_trip(message.right_fencer);
    }
    if message.left_fencer.is_anchored() {
        lemma_fencer_zone_round_trip(message.left_fencer);
    }
}

/// A message that is read from a line is canonical.
pub proof fn lemma_decoded_is_canonical(raw: Seq<char>)
    requires
        MessageView::decode(raw) is Ok,
    ensures
        MessageView::decode(raw)->Ok_0.is_canonical(),
{
    let line = trimmed(raw);
    let inner = trimmed_of(line, '|');
    let zones = zones_of(line);
    lemma_pieces_free_of_separator(inner, '%');
    lemma_zone_tokens_are_tokens(zones[0]);
    if 1 < zones.len() {
        lemma_zone_tokens_are_tokens(zones[1]);
    }
    if 2 < zones.len() {
        lemma_zone_tokens_are_tokens(zones[2]);
    }
}

/// Encode-then-decode round trip: a message that was read from a line, once
/// written, reads again as the same message. It keeps its protocol tag,
/// command, piste, competition, every other field of the general zone and
/// the referee; and it keeps each fencer whose first field is present or
/// who has no field at all.
pub proof fn lemma_round_trip(raw: Seq<char>)
    requires
        MessageView::decode(raw) is Ok,
    ensures
        ({
            let message = MessageView::decode(raw)->Ok_0;
            &&& MessageView::decode(message.encode()) matches Ok(again) && again == (MessageView {
                right_fencer: again.right_fencer,
                left_fencer: again.left_fencer,
                ..message
            })
            &&& message.right_fencer.is_anchored() ==> MessageView::decode(
                message.encode(),
            )->Ok_0.right_fencer == message.right_fencer
            &&& message.left_fencer.is_anchored() ==> MessageView::decode(
                message.encode(),
            )->Ok_0.left_fencer == message.left_fencer
        }),
{
    lemma_decoded_is_canonical(raw);
    lemma_encode_decode(MessageView::decode(raw)->Ok_0);
}

} // verus!
