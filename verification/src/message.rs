//! A whole line of the protocol: the general zone and the zones of the two
//! fencers.
//!
//! On the wire a line reads `|<general>|%|<right>|%|<left>|%|`: the zones
//! end in a percent sign, and the fields of a zone are set between bars.

use crate::enums::ApparatusState;
use crate::enums::Command;
use crate::enums::CompetitionType;
use crate::enums::Priority;
use crate::enums::Weapon;
use crate::enums::WireToken;
use crate::error::ParseError;
use crate::error::ParseErrorView;
use crate::fencer::Fencer;
use crate::fencer::FencerView;
use crate::parser::field_at;
use crate::parser::get_field;
use crate::parser::get_owned_field;
use crate::parser::get_required_field;
use crate::parser::number_at;
use crate::parser::parse_optional_enum;
use crate::parser::parse_optional_u8;
use crate::parser::value_at;
use crate::referee::Referee;
use crate::referee::RefereeView;
use crate::text::join;
use crate::text::joined;
use crate::text::lemma_pieces_count;
use crate::text::pieces;
use crate::text::split;
use crate::text::str_eq;
use crate::text::trim;
use crate::text::trim_matches;
use crate::text::trimmed;
use crate::text::trimmed_of;
use crate::writer::is_optional_field_text;
use crate::writer::is_token;
use crate::writer::number_token;
use crate::writer::text_token;
use crate::writer::value_token;
use crate::writer::write_enum;
use crate::writer::write_text;
use crate::writer::write_u8;
use crate::zone::zone_fields;
use crate::zone::zone_tokens;
use vstd::prelude::*;
use vstd::std_specs::convert::FromSpecImpl;
use vstd::std_specs::convert::TryFromSpecImpl;
use vstd::string::StringExecFns;

verus! {

/// A complete EFP protocol message.
#[derive(Debug)]
pub struct Message {
    /// Protocol version: "EFP1.1" or "EFP1".
    pub protocol: String,
    /// The command type of this message.
    pub command: Command,
    /// Piste (strip) identifier; empty if the line gives none.
    pub piste: String,
    /// Competition identifier; empty if the line gives none.
    pub competition_id: String,
    /// Competition phase number.
    pub phase: Option<u8>,
    /// Pool or tableau identifier.
    pub pool_tableau: Option<String>,
    /// Match number within the competition.
    pub match_number: Option<u8>,
    /// Round number.
    pub round: Option<u8>,
    /// Current match time.
    pub time: Option<String>,
    /// Stopwatch time.
    pub stopwatch: Option<String>,
    /// Type of competition (individual or team).
    pub competition_type: Option<CompetitionType>,
    /// Weapon type being used.
    pub weapon: Option<Weapon>,
    /// Priority indicator (for weapons with right of way).
    pub priority: Option<Priority>,
    /// Current state of the apparatus.
    pub state: Option<ApparatusState>,
    /// Information about the referee.
    pub referee: Referee,
    /// Information about the fencer on the right.
    pub right_fencer: Fencer,
    /// Information about the fencer on the left.
    pub left_fencer: Fencer,
}

/// What a `Message` holds, field by field, with each text as a sequence of
/// characters.
pub struct MessageView {
    pub protocol: Seq<char>,
    pub command: Command,
    pub piste: Seq<char>,
    pub competition_id: Seq<char>,
    pub phase: Option<u8>,
    pub pool_tableau: Option<Seq<char>>,
    pub match_number: Option<u8>,
    pub round: Option<u8>,
    pub time: Option<Seq<char>>,
    pub stopwatch: Option<Seq<char>>,
    pub competition_type: Option<CompetitionType>,
    pub weapon: Option<Weapon>,
    pub priority: Option<Priority>,
    pub state: Option<ApparatusState>,
    pub referee: RefereeView,
    pub right_fencer: FencerView,
    pub left_fencer: FencerView,
}

impl View for Message {
    type V = MessageView;

    open spec fn view(&self) -> MessageView {
        MessageView {
            protocol: self.protocol@,
            command: self.command,
            piste: self.piste@,
            competition_id: self.competition_id@,
            phase: self.phase,
            pool_tableau: self.pool_tableau.deep_view(),
            match_number: self.match_number,
            round: self.round,
            time: self.time.deep_view(),
            stopwatch: self.stopwatch.deep_view(),
            competition_type: self.competition_type,
            weapon: self.weapon,
            priority: self.priority,
            state: self.state,
            referee: self.referee@,
            right_fencer: self.right_fencer@,
            left_fencer: self.left_fencer@,
        }
    }
}

/// Whether `tag` names a version of the protocol that this codec reads.
pub open spec fn is_known_protocol(tag: Seq<char>) -> bool {
    tag == "EFP1.1"@ || tag == "EFP1"@
}

/// The zones of a line: the line without the bars at its ends, cut at each
/// percent sign.
pub open spec fn zones_of(line: Seq<char>) -> Seq<Seq<char>> {
    pieces(trimmed_of(line, '|'), '%')
}

/// The tokens of the general zone of a line.
pub open spec fn general_tokens(raw: Seq<char>) -> Seq<Seq<char>> {
    zone_tokens(zones_of(trimmed(raw))[0])
}

/// The fencer that the zone at `index` describes; the fencer of whom
/// nothing is known if the line has no such zone.
pub open spec fn fencer_in(zones: Seq<Seq<char>>, index: int) -> FencerView {
    if index < zones.len() {
        FencerView::from_tokens(zone_tokens(zones[index]))
    } else {
        FencerView::absent()
    }
}

impl MessageView {
    /// The message that the tokens of a general zone and the zones of a
    /// line describe, given the two fields that every line must hold.
    pub open spec fn assemble(
        protocol: Seq<char>,
        command: Command,
        general: Seq<Seq<char>>,
        zones: Seq<Seq<char>>,
    ) -> MessageView {
        MessageView {
            protocol,
            command,
            piste: text_token(field_at(general, 2)),
            competition_id: text_token(field_at(general, 3)),
            phase: number_at(general, 4),
            pool_tableau: field_at(general, 5),
            match_number: number_at(general, 6),
            round: number_at(general, 7),
            time: field_at(general, 8),
            stopwatch: field_at(general, 9),
            competition_type: value_at::<CompetitionType>(general, 10),
            weapon: value_at::<Weapon>(general, 11),
            priority: value_at::<Priority>(general, 12),
            state: value_at::<ApparatusState>(general, 13),
            referee: RefereeView {
                id: field_at(general, 14),
                name: field_at(general, 15),
                nation: field_at(general, 16),
            },
            right_fencer: fencer_in(zones, 1),
            left_fencer: fencer_in(zones, 2),
        }
    }

    /// What a line decodes to: the message it holds, or the first reason
    /// why it holds none.
    ///
    /// A line of whitespace is empty. Otherwise the protocol tag must be
    /// there and be known, and the command must be there and be a command,
    /// checked in that order. Every other field is optional.
    pub open spec fn decode(raw: Seq<char>) -> Result<MessageView, ParseErrorView> {
        let zones = zones_of(trimmed(raw));
        let general = general_tokens(raw);
        if trimmed(raw).len() == 0 {
            Err(ParseErrorView::EmptyMessage)
        } else {
            match field_at(general, 0) {
                None => Err(ParseErrorView::MissingField("protocol"@)),
                Some(protocol) => if !is_known_protocol(protocol) {
                    Err(ParseErrorView::InvalidProtocol(protocol))
                } else {
                    match field_at(general, 1) {
                        None => Err(ParseErrorView::MissingField("command"@)),
                        Some(word) => match Command::from_token(word) {
                            None => Err(ParseErrorView::InvalidCommand(word)),
                            Some(command) => Ok(
                                MessageView::assemble(protocol, command, general, zones),
                            ),
                        },
                    }
                },
            }
        }
    }

    /// Whether the message can be written and read back: its protocol tag
    /// is known, and each of its texts can stand in a field. A text that is
    /// present is not empty and holds no separator; the piste and the
    /// competition may be empty. A message that was read from a line is of
    /// this kind.
    pub open spec fn is_canonical(self) -> bool {
        &&& is_known_protocol(self.protocol)
        &&& is_token(self.piste)
        &&& is_token(self.competition_id)
        &&& is_optional_field_text(self.pool_tableau)
        &&& is_optional_field_text(self.time)
        &&& is_optional_field_text(self.stopwatch)
        &&& self.referee.is_canonical()
        &&& self.right_fencer.is_canonical()
        &&& self.left_fencer.is_canonical()
    }

    /// The seventeen tokens of the general zone, absent fields as empty
    /// tokens.
    pub open spec fn tokens(self) -> Seq<Seq<char>> {
        seq![
            self.protocol,
            self.command.token(),
            self.piste,
            self.competition_id,
            number_token(self.phase),
            text_token(self.pool_tableau),
            number_token(self.match_number),
            number_token(self.round),
            text_token(self.time),
            text_token(self.stopwatch),
            value_token(self.competition_type),
            value_token(self.weapon),
            value_token(self.priority),
            value_token(self.state),
            text_token(self.referee.id),
            text_token(self.referee.name),
            text_token(self.referee.nation),
        ]
    }

    /// The line that carries a message.
    pub open spec fn encode(self) -> Seq<char> {
        "|"@ + joined(self.tokens(), "|"@) + "|%|"@ + self.right_fencer.text() + "|%|"@
            + self.left_fencer.text() + "|%|"@
    }
}

/// Reads the fencer of the zone at `index`, if the line has such a zone.
fn fencer_at(zones: &Vec<&str>, index: usize) -> (r: Fencer)
    ensures
        r@ == fencer_in(zones.deep_view(), index as int),
{
    if index < zones.len() {
        let tokens = zone_fields(zones[index]);
        let fields = tokens.as_slice();
        match Fencer::parse(fields) {
            Ok(fencer) => fencer,
            Err(_) => Fencer::default(),
        }
    } else {
        Fencer::default()
    }
}

impl<'a> TryFrom<&'a str> for Message {
    type Error = ParseError;

    /// Parses a line of the protocol.
    ///
    /// Fails if the line is blank, if it gives no protocol tag or one that
    /// is not supported (only EFP1 and EFP1.1 are), or if it gives no
    /// command or one that is unknown. Every other field is optional: one
    /// that is missing, empty or unreadable is absent from the message, and
    /// a fencer whose zone is missing is the default fencer. The piste and
    /// the competition are optional too: where the line gives none, they
    /// are empty, and the line is not refused for a missing field.
    fn try_from(raw: &'a str) -> (r: Result<Message, ParseError>)
        ensures
            match MessageView::decode(raw@) {
                Ok(message) => r is Ok && r->Ok_0@ == message,
                Err(error) => r is Err && r->Err_0@ == error,
            },
    {
        let line = trim(raw);
        if line.is_empty() {
            return Err(ParseError::EmptyMessage);
        }
        let zones = split(trim_matches(line, '|'), '%');
        // A line without any zone would be malformed. There is none: a split
        // always gives a first piece, so the general zone is always there.
        proof {
            lemma_pieces_count(trimmed_of(line@, '|'), '%');
        }
        if zones.len() == 0 {
            return Err(ParseError::InvalidFormat);
        }
        let general = zone_fields(zones[0]);
        let fields = general.as_slice();

        let protocol = match get_required_field(fields, 0, "protocol") {
            Ok(tag) => tag,
            Err(error) => {
                return Err(error);
            },
        };
        if !str_eq(protocol, "EFP1.1") && !str_eq(protocol, "EFP1") {
            return Err(ParseError::InvalidProtocol(String::from_str(protocol)));
        }
        let word = match get_required_field(fields, 1, "command") {
            Ok(word) => word,
            Err(error) => {
                return Err(error);
            },
        };
        let command = match Command::try_from(word) {
            Ok(command) => command,
            Err(error) => {
                return Err(error);
            },
        };
        let piste = match get_field(fields, 2) {
            Some(text) => String::from_str(text),
            None => String::new(),
        };
        let competition_id = match get_field(fields, 3) {
            Some(text) => String::from_str(text),
            None => String::new(),
        };
        Ok(
            Message {
                protocol: String::from_str(protocol),
                command,
                piste,
                competition_id,
                phase: parse_optional_u8(fields, 4),
                pool_tableau: get_owned_field(fields, 5),
                match_number: parse_optional_u8(fields, 6),
                round: parse_optional_u8(fields, 7),
                time: get_owned_field(fields, 8),
                stopwatch: get_owned_field(fields, 9),
                competition_type: parse_optional_enum::<CompetitionType>(fields, 10),
                weapon: parse_optional_enum::<Weapon>(fields, 11),
                priority: parse_optional_enum::<Priority>(fields, 12),
                state: parse_optional_enum::<ApparatusState>(fields, 13),
                referee: Referee {
                    id: get_owned_field(fields, 14),
                    name: get_owned_field(fields, 15),
                    nation: get_owned_field(fields, 16),
                },
                right_fencer: fencer_at(&zones, 1),
                left_fencer: fencer_at(&zones, 2),
            },
        )
    }
}

/// The result of `try_from` holds strings, which contracts compare by their
/// views alone: `try_from` states its result itself.
impl<'a> TryFromSpecImpl<&'a str> for Message {
    open spec fn obeys_try_from_spec() -> bool {
        false
    }

    open spec fn try_from_spec(raw: &'a str) -> Result<Message, ParseError> {
        arbitrary()
    }
}

impl TryFrom<String> for Message {
    type Error = ParseError;

    /// Parses a line of the protocol from an owned string.
    fn try_from(raw: String) -> (r: Result<Message, ParseError>)
        ensures
            match MessageView::decode(raw@) {
                Ok(message) => r is Ok && r->Ok_0@ == message,
                Err(error) => r is Err && r->Err_0@ == error,
            },
    {
        Message::try_from(raw.as_str())
    }
}

/// As for string slices: `try_from` states its result itself.
impl TryFromSpecImpl<String> for Message {
    open spec fn obeys_try_from_spec() -> bool {
        false
    }

    open spec fn try_from_spec(raw: String) -> Result<Message, ParseError> {
        arbitrary()
    }
}

impl Clone for Message {
    fn clone(&self) -> (r: Message)
        ensures
            r@ == self@,
    {
        Message {
            protocol: self.protocol.clone(),
            command: self.command,
            piste: self.piste.clone(),
            competition_id: self.competition_id.clone(),
            phase: self.phase,
            pool_tableau: self.pool_tableau.clone(),
            match_number: self.match_number,
            round: self.round,
            time: self.time.clone(),
            stopwatch: self.stopwatch.clone(),
            competition_type: self.competition_type,
            weapon: self.weapon,
            priority: self.priority,
            state: self.state,
            referee: self.referee.clone(),
            right_fencer: self.right_fencer.clone(),
            left_fencer: self.left_fencer.clone(),
        }
    }
}

impl Message {
    /// Writes the message as a line of the protocol:
    /// `|<general>|%|<right>|%|<left>|%|`, with all seventeen fields of the
    /// general zone, and each fencer's zone without its empty fields at the
    /// end.
    pub fn to_string(&self) -> (r: String)
        ensures
            r@ == self@.encode(),
    {
        let mut fields: Vec<String> = Vec::new();
        fields.push(self.protocol.clone());
        fields.push(self.command.to_string());
        fields.push(self.piste.clone());
        fields.push(self.competition_id.clone());
        fields.push(write_u8(self.phase));
        fields.push(write_text(&self.pool_tableau));
        fields.push(write_u8(self.match_number));
        fields.push(write_u8(self.round));
        fields.push(write_text(&self.time));
        fields.push(write_text(&self.stopwatch));
        fields.push(write_enum(&self.competition_type));
        fields.push(write_enum(&self.weapon));
        fields.push(write_enum(&self.priority));
        fields.push(write_enum(&self.state));
        fields.push(write_text(&self.referee.id));
        fields.push(write_text(&self.referee.name));
        fields.push(write_text(&self.referee.nation));
        assert(fields.deep_view() =~= self@.tokens());

        let mut line = String::from_str("|");
        line.append(join(&fields, "|").as_str());
        line.append("|%|");
        line.append(self.right_fencer.serialize().as_str());
        line.append("|%|");
        line.append(self.left_fencer.serialize().as_str());
        line.append("|%|");
        line
    }
}

impl From<Message> for String {
    /// Converts a message into the line that carries it.
    fn from(message: Message) -> (r: String)
        ensures
            r@ == message@.encode(),
    {
        message.to_string()
    }
}

/// A string is known to contracts by its view alone: `from` states its
/// result itself.
impl FromSpecImpl<Message> for String {
    open spec fn obeys_from_spec() -> bool {
        false
    }

    open spec fn from_spec(message: Message) -> String {
        arbitrary()
    }
}

} // verus!
