//! One fencer's zone of a line: twelve fields, all optional.

use crate::enums::FencerStatus;
use crate::enums::PCard;
use crate::enums::Reserve;
use crate::error::ParseError;
use crate::parser::field_at;
use crate::parser::flag_at;
use crate::parser::get_owned_field;
use crate::parser::number_at;
use crate::parser::parse_optional_bool;
use crate::parser::parse_optional_enum;
use crate::parser::parse_optional_u8;
use crate::parser::value_at;
use crate::text::free_of;
use crate::text::join;
use crate::text::joined;
use crate::text::lemma_skip_trailing_prefix;
use crate::text::pieces;
use crate::text::skip_trailing;
use crate::writer::drop_trailing_empty;
use crate::writer::empty_token;
use crate::writer::flag_token;
use crate::writer::is_optional_field_text;
use crate::writer::is_token;
use crate::writer::lemma_flag_token;
use crate::writer::lemma_number_token;
use crate::writer::lemma_value_token;
use crate::writer::number_token;
use crate::writer::text_token;
use crate::writer::value_token;
use crate::writer::write_bool;
use crate::writer::write_enum;
use crate::writer::write_text;
use crate::writer::write_u8;
use crate::zone::lemma_trimmed_tokens_round_trip;
use crate::zone::lemma_zone_round_trip;
use crate::zone::zone_tokens;
use vstd::prelude::*;

verus! {

/// Information about a fencer participating in a match.
#[derive(Debug)]
pub struct Fencer {
    /// Unique identifier for the fencer.
    pub id: Option<String>,
    /// Full name of the fencer.
    pub name: Option<String>,
    /// Three-letter country code of the fencer's nation (e.g., "FRA", "USA").
    pub nation: Option<String>,
    /// Current score in the match.
    pub score: Option<u8>,
    /// Match status (victory, defeat, etc.).
    pub status: Option<FencerStatus>,
    /// Number of yellow cards received (warnings).
    pub yellow_card: Option<u8>,
    /// Number of red cards received (penalty touches).
    pub red_card: Option<u8>,
    /// Whether the fencer's scoring light is on.
    pub light: Option<bool>,
    /// Whether the white light is on (off-target touch).
    pub white_light: Option<bool>,
    /// Number of medical interventions.
    pub medical: Option<u8>,
    /// Reserve fencer status.
    pub reserve: Option<Reserve>,
    /// Penalty cards received so far.
    pub p_card: Option<PCard>,
}

/// What a `Fencer` holds, field by field, with each text as a sequence of
/// characters.
pub struct FencerView {
    pub id: Option<Seq<char>>,
    pub name: Option<Seq<char>>,
    pub nation: Option<Seq<char>>,
    pub score: Option<u8>,
    pub status: Option<FencerStatus>,
    pub yellow_card: Option<u8>,
    pub red_card: Option<u8>,
    pub light: Option<bool>,
    pub white_light: Option<bool>,
    pub medical: Option<u8>,
    pub reserve: Option<Reserve>,
    pub p_card: Option<PCard>,
}

impl FencerView {
    /// The fencer of whom nothing is known: every field absent.
    pub open spec fn absent() -> FencerView {
        FencerView {
            id: None,
            name: None,
            nation: None,
            score: None,
            status: None,
            yellow_card: None,
            red_card: None,
            light: None,
            white_light: None,
            medical: None,
            reserve: None,
            p_card: None,
        }
    }

    /// The fencer that the tokens of a zone describe, field by field.
    pub open spec fn from_tokens(tokens: Seq<Seq<char>>) -> FencerView {
        FencerView {
            id: field_at(tokens, 0),
            name: field_at(tokens, 1),
            nation: field_at(tokens, 2),
            score: number_at(tokens, 3),
            status: value_at::<FencerStatus>(tokens, 4),
            yellow_card: number_at(tokens, 5),
            red_card: number_at(tokens, 6),
            light: flag_at(tokens, 7),
            white_light: flag_at(tokens, 8),
            medical: number_at(tokens, 9),
            reserve: value_at::<Reserve>(tokens, 10),
            p_card: value_at::<PCard>(tokens, 11),
        }
    }

    /// The twelve tokens of a fencer, absent fields as empty tokens.
    pub open spec fn tokens(self) -> Seq<Seq<char>> {
        seq![
            text_token(self.id),
            text_token(self.name),
            text_token(self.nation),
            number_token(self.score),
            value_token(self.status),
            number_token(self.yellow_card),
            number_token(self.red_card),
            flag_token(self.light),
            flag_token(self.white_light),
            number_token(self.medical),
            value_token(self.reserve),
            value_token(self.p_card),
        ]
    }

    /// The zone of a fencer: its tokens up to the last one that is not
    /// empty, with a bar between each two.
    pub open spec fn text(self) -> Seq<char> {
        joined(skip_trailing(self.tokens(), empty_token()), "|"@)
    }

    /// Whether each text of the fencer can stand in a field: it is not
    /// empty and holds no separator. A fencer that was read from a line is
    /// of this kind.
    pub open spec fn is_canonical(self) -> bool {
        &&& is_optional_field_text(self.id)
        &&& is_optional_field_text(self.name)
        &&& is_optional_field_text(self.nation)
    }

    /// Whether the zone of the fencer starts with a field that is present,
    /// or holds no field at all. The zone of any other fencer starts with
    /// bars that a reader takes for the bars around the zone.
    pub open spec fn is_anchored(self) -> bool {
        self.id is Some || self == FencerView::absent()
    }
}

/// The tokens of a fencer's numbers, flags and values hold no separator,
/// and read as what they were written from. So the twelve tokens describe
/// the fencer itself, apart from its texts: a text is its own token, and
/// reads as itself unless it is empty.
proof fn lemma_fencer_values(fencer: FencerView)
    ensures
        fencer.tokens().len() == 12,
        forall|i: int| 3 <= i < 12 ==> is_token(#[trigger] fencer.tokens()[i]),
        FencerView::from_tokens(fencer.tokens()) == (FencerView {
            id: field_at(fencer.tokens(), 0),
            name: field_at(fencer.tokens(), 1),
            nation: field_at(fencer.tokens(), 2),
            ..fencer
        }),
{
    let tokens = fencer.tokens();
    lemma_number_token(tokens, 3, fencer.score);
    lemma_value_token(tokens, 4, fencer.status);
    lemma_number_token(tokens, 5, fencer.yellow_card);
    lemma_number_token(tokens, 6, fencer.red_card);
    lemma_flag_token(tokens, 7, fencer.light);
    lemma_flag_token(tokens, 8, fencer.white_light);
    lemma_number_token(tokens, 9, fencer.medical);
    lemma_value_token(tokens, 10, fencer.reserve);
    lemma_value_token(tokens, 11, fencer.p_card);
}

/// The twelve tokens of a canonical fencer describe that fencer, and none
/// of them holds a separator.
pub proof fn lemma_fencer_tokens(fencer: FencerView)
    requires
        fencer.is_canonical(),
    ensures
        fencer.tokens().len() == 12,
        FencerView::from_tokens(fencer.tokens()) == fencer,
        forall|i: int| 0 <= i < 12 ==> is_token(#[trigger] fencer.tokens()[i]),
{
    lemma_fencer_values(fencer);
}

/// Leaving out the empty fields at the end of a fencer's zone neither
/// removes nor moves a field: cut at its bars, the zone has at each index
/// the field that the twelve tokens have there. This holds of every fencer
/// whose texts hold no bar.
pub proof fn lemma_fencer_zone_fields(fencer: FencerView, index: int)
    requires
        free_of(text_token(fencer.id), '|'),
        free_of(text_token(fencer.name), '|'),
        free_of(text_token(fencer.nation), '|'),
    ensures
        field_at(pieces(fencer.text(), '|'), index) == field_at(fencer.tokens(), index),
{
    reveal_strlit("|");
    assert("|"@ =~= seq!['|']);
    lemma_fencer_values(fencer);
    lemma_trimmed_tokens_round_trip(fencer.tokens(), index);
}

/// Cut at its bars, the zone of a canonical fencer gives the fencer it was
/// written from.
pub proof fn lemma_fencer_round_trip(fencer: FencerView)
    requires
        fencer.is_canonical(),
    ensures
        FencerView::from_tokens(pieces(fencer.text(), '|')) == fencer,
{
    lemma_fencer_tokens(fencer);
    assert forall|index: int|
        field_at(pieces(fencer.text(), '|'), index) == field_at(fencer.tokens(), index) by {
        lemma_fencer_zone_fields(fencer, index);
    }
}

/// Set between bars, the zone of a fencer reads back as that fencer, if the
/// fencer's first field is present or none is.
pub proof fn lemma_fencer_zone_round_trip(fencer: FencerView)
    requires
        fencer.is_canonical(),
        fencer.is_anchored(),
    ensures
        FencerView::from_tokens(zone_tokens("|"@ + fencer.text() + "|"@)) == fencer,
{
    reveal_strlit("|");
    assert("|"@ =~= seq!['|']);
    lemma_fencer_tokens(fencer);
    let tokens = fencer.tokens();
    let kept = skip_trailing(tokens, empty_token());
    lemma_skip_trailing_prefix(tokens, empty_token());
    assert forall|index: int|
        field_at(zone_tokens("|"@ + fencer.text() + "|"@), index) == field_at(tokens, index) by {
        lemma_zone_round_trip("|"@, kept, "|"@, index);
    }
}

impl View for Fencer {
    type V = FencerView;

    open spec fn view(&self) -> FencerView {
        FencerView {
            id: self.id.deep_view(),
            name: self.name.deep_view(),
            nation: self.nation.deep_view(),
            score: self.score,
            status: self.status,
            yellow_card: self.yellow_card,
            red_card: self.red_card,
            light: self.light,
            white_light: self.white_light,
            medical: self.medical,
            reserve: self.reserve,
            p_card: self.p_card,
        }
    }
}

impl Clone for Fencer {
    fn clone(&self) -> (r: Fencer)
        ensures
            r@ == self@,
    {
        Fencer {
            id: self.id.clone(),
            name: self.name.clone(),
            nation: self.nation.clone(),
            score: self.score,
            status: self.status,
            yellow_card: self.yellow_card,
            red_card: self.red_card,
            light: self.light,
            white_light: self.white_light,
            medical: self.medical,
            reserve: self.reserve,
            p_card: self.p_card,
        }
    }
}

impl Default for Fencer {
    fn default() -> (r: Fencer)
        ensures
            r@ == FencerView::absent(),
    {
        Fencer {
            id: None,
            name: None,
            nation: None,
            score: None,
            status: None,
            yellow_card: None,
            red_card: None,
            light: None,
            white_light: None,
            medical: None,
            reserve: None,
            p_card: None,
        }
    }
}

impl Fencer {
    /// Parses a fencer from the tokens of its zone. Every field is optional,
    /// so this never fails: a field that is missing, empty or unreadable is
    /// absent from the result, and no tokens at all give the default fencer.
    pub fn parse(fields: &[&str]) -> (r: Result<Fencer, ParseError>)
        ensures
            r is Ok,
            r->Ok_0@ == FencerView::from_tokens(fields.deep_view()),
            fields@.len() == 0 ==> r->Ok_0@ == FencerView::absent(),
    {
        Ok(
            Fencer {
                id: get_owned_field(fields, 0),
                name: get_owned_field(fields, 1),
                nation: get_owned_field(fields, 2),
                score: parse_optional_u8(fields, 3),
                status: parse_optional_enum::<FencerStatus>(fields, 4),
                yellow_card: parse_optional_u8(fields, 5),
                red_card: parse_optional_u8(fields, 6),
                light: parse_optional_bool(fields, 7),
                white_light: parse_optional_bool(fields, 8),
                medical: parse_optional_u8(fields, 9),
                reserve: parse_optional_enum::<Reserve>(fields, 10),
                p_card: parse_optional_enum::<PCard>(fields, 11),
            },
        )
    }

    /// Serializes the fencer into its zone of a line: the twelve fields in
    /// order, bar-separated, without the empty fields at the end.
    pub fn serialize(&self) -> (r: String)
        ensures
            r@ == self@.text(),
    {
        let mut fields: Vec<String> = Vec::new();
        fields.push(write_text(&self.id));
        fields.push(write_text(&self.name));
        fields.push(write_text(&self.nation));
        fields.push(write_u8(self.score));
        fields.push(write_enum(&self.status));
        fields.push(write_u8(self.yellow_card));
        fields.push(write_u8(self.red_card));
        fields.push(write_bool(self.light));
        fields.push(write_bool(self.white_light));
        fields.push(write_u8(self.medical));
        fields.push(write_enum(&self.reserve));
        fields.push(write_enum(&self.p_card));
        assert(fields.deep_view() =~= self@.tokens());
        drop_trailing_empty(&mut fields);
        join(&fields, "|")
    }
}

} // verus!
