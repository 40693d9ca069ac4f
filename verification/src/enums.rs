//! The eight closed sets of values of the protocol, each value with the one
//! token that stands for it on the wire.
//!
//! Reading a token is strict: a text that is no token of the set is an error.
//! Commands alone are read without regard to case; they are written in upper
//! case like every other token.

use crate::error::ParseError;
use crate::error::ParseErrorView;
use crate::text::free_of;
use crate::text::str_eq;
use crate::text::to_uppercase;
use crate::text::uppercase;
use vstd::prelude::*;
use vstd::std_specs::convert::TryFromSpecImpl;
use vstd::string::StringExecFns;

verus! {

/// A closed set of values, each with one token on the wire.
pub trait WireToken: Sized {
    /// The token that stands for a value.
    spec fn token(self) -> Seq<char>;

    /// The form in which a text is compared with the tokens: the text
    /// itself, or its upper-case form where case is not regarded.
    spec fn spelling(s: Seq<char>) -> Seq<char>;

    /// The value that a text stands for, if it is a token of the set.
    spec fn from_token(s: Seq<char>) -> Option<Self>;

    /// Reads a token; a text that is none reads as nothing.
    fn decode(s: &str) -> (r: Option<Self>)
        ensures
            r == Self::from_token(s@),
    ;

    /// The token of a value, borrowed.
    fn as_str(&self) -> (r: &'static str)
        ensures
            r@ == self.token(),
    ;

    /// A text stands for a value exactly if it is spelled as the value's
    /// token: each token reads as its own value and as no other.
    proof fn lemma_token_exact(s: Seq<char>, v: Self)
        ensures
            Self::from_token(s) == Some(v) <==> Self::spelling(s) == v.token(),
    ;

    /// A token is its own spelling, so it reads back as the value it was
    /// written for; it is not empty and holds no separator.
    proof fn lemma_token_reads_back(self)
        ensures
            Self::spelling(self.token()) == self.token(),
            Self::from_token(self.token()) == Some(self),
            self.token().len() > 0,
            free_of(self.token(), '|'),
            free_of(self.token(), '%'),
    ;
}

/// Protocol command: the kind of message that is sent or received.
#[derive(Debug, Clone, Copy, PartialEq, Eq, Structural)]
pub enum Command {
    /// Initial handshake command.
    Hello,
    /// Display command.
    Disp,
    /// Acknowledgment command.
    Ack,
    /// Negative acknowledgment command.
    Nak,
    /// Information message containing match data.
    Info,
    /// Move to next match.
    Next,
    /// Move to previous match.
    Prev,
}

/// Type of fencing competition.
#[derive(Debug, Clone, Copy, PartialEq, Eq, Structural)]
pub enum CompetitionType {
    /// Individual competition (one fencer per side).
    Individual,
    /// Team competition.
    Team,
}

/// Type of fencing weapon.
#[derive(Debug, Clone, Copy, PartialEq, Eq, Structural)]
pub enum Weapon {
    /// Foil weapon.
    Foil,
    /// Epee weapon.
    Epee,
    /// Sabre weapon.
    Sabre,
}

/// Priority indicator: which fencer has right of way in the current action.
#[derive(Debug, Clone, Copy, PartialEq, Eq, Structural)]
pub enum Priority {
    /// No priority assigned.
    NoPriority,
    /// Right fencer has priority.
    Right,
    /// Left fencer has priority.
    Left,
}

/// Current state of the scoring apparatus.
#[derive(Debug, Clone, Copy, PartialEq, Eq, Structural)]
pub enum ApparatusState {
    /// Fencing is in progress.
    Fencing,
    /// Match is halted.
    Halt,
    /// Match is paused.
    Pause,
    /// Apparatus is waiting for the match to begin.
    Waiting,
    /// Match is ending.
    Ending,
}

/// Status of a fencer in the match.
#[derive(Debug, Clone, Copy, PartialEq, Eq, Structural)]
pub enum FencerStatus {
    /// Status is undefined (match in progress).
    Undefined,
    /// Fencer has won the match.
    Victory,
    /// Fencer has lost the match.
    Defeat,
    /// Fencer has abandoned the match.
    Abandonment,
    /// Fencer has been excluded from the match.
    Exclusion,
}

/// Reserve fencer status indicator.
#[derive(Debug, Clone, Copy, PartialEq, Eq, Structural)]
pub enum Reserve {
    /// No reserve status.
    NoReserve,
    /// Reserve fencer to be introduced.
    Introduce,
}

/// Penalty card status: the cards that a fencer has received so far.
#[derive(Debug, Clone, Copy, PartialEq, Eq, Structural)]
pub enum PCard {
    /// No penalty cards.
    NoCard,
    /// Yellow card (warning).
    Yellow,
    /// First red card (penalty touch).
    OneRed,
    /// Second red card (two penalty touches).
    TwoRed,
    /// First black card (exclusion).
    OneBlack,
    /// Second black card (expulsion).
    TwoBlack,
}

impl WireToken for Command {
    open spec fn token(self) -> Seq<char> {
        match self {
            Command::Hello => "HELLO"@,
            Command::Disp => "DISP"@,
            Command::Ack => "ACK"@,
            Command::Nak => "NAK"@,
            Command::Info => "INFO"@,
            Command::Next => "NEXT"@,
            Command::Prev => "PREV"@,
        }
    }

    open spec fn spelling(s: Seq<char>) -> Seq<char> {
        uppercase(s)
    }

    open spec fn from_token(s: Seq<char>) -> Option<Command> {
        Command::of_upper(uppercase(s))
    }

    fn decode(s: &str) -> (r: Option<Command>) {
        let upper = to_uppercase(s);
        Command::from_upper(upper.as_str())
    }

    fn as_str(&self) -> (r: &'static str) {
        match self {
            Command::Hello => "HELLO",
            Command::Disp => "DISP",
            Command::Ack => "ACK",
            Command::Nak => "NAK",
            Command::Info => "INFO",
            Command::Next => "NEXT",
            Command::Prev => "PREV",
        }
    }

    proof fn lemma_token_exact(s: Seq<char>, v: Command) {
        reveal_strlit("HELLO");
        reveal_strlit("DISP");
        reveal_strlit("ACK");
        reveal_strlit("NAK");
        reveal_strlit("INFO");
        reveal_strlit("NEXT");
        reveal_strlit("PREV");
        assert("HELLO"@.len() == 5 && "HELLO"@[0] == 'H');
        assert("DISP"@.len() == 4 && "DISP"@[0] == 'D');
        assert("ACK"@.len() == 3 && "ACK"@[0] == 'A');
        assert("NAK"@.len() == 3 && "NAK"@[0] == 'N');
        assert("INFO"@.len() == 4 && "INFO"@[0] == 'I');
        assert("NEXT"@.len() == 4 && "NEXT"@[0] == 'N');
        assert("PREV"@.len() == 4 && "PREV"@[0] == 'P');
    }

    proof fn lemma_token_reads_back(self) {
        reveal_strlit("HELLO");
        reveal_strlit("DISP");
        reveal_strlit("ACK");
        reveal_strlit("NAK");
        reveal_strlit("INFO");
        reveal_strlit("NEXT");
        reveal_strlit("PREV");
        assert("HELLO"@.len() == 5 && "HELLO"@[0] == 'H');
        assert("DISP"@.len() == 4 && "DISP"@[0] == 'D');
        assert("ACK"@.len() == 3 && "ACK"@[0] == 'A');
        assert("NAK"@.len() == 3 && "NAK"@[0] == 'N');
        assert("INFO"@.len() == 4 && "INFO"@[0] == 'I');
        assert("NEXT"@.len() == 4 && "NEXT"@[0] == 'N');
        assert("PREV"@.len() == 4 && "PREV"@[0] == 'P');
        assert(vstd::utf8::is_ascii_chars(self.token()));
        assert(crate::text::ascii_uppercase(self.token()) =~= self.token());
    }
}

impl Command {
    /// The command that a text in upper case stands for, if any.
    pub open spec fn of_upper(upper: Seq<char>) -> Option<Command> {
        if upper == "HELLO"@ {
            Some(Command::Hello)
        } else if upper == "DISP"@ {
            Some(Command::Disp)
        } else if upper == "ACK"@ {
            Some(Command::Ack)
        } else if upper == "NAK"@ {
            Some(Command::Nak)
        } else if upper == "INFO"@ {
            Some(Command::Info)
        } else if upper == "NEXT"@ {
            Some(Command::Next)
        } else if upper == "PREV"@ {
            Some(Command::Prev)
        } else {
            None
        }
    }

    /// Looks a text up among the command tokens, which are in upper case.
    pub fn from_upper(upper: &str) -> (r: Option<Command>)
        ensures
            r == Command::of_upper(upper@),
    {
        if str_eq(upper, "HELLO") {
            Some(Command::Hello)
        } else if str_eq(upper, "DISP") {
            Some(Command::Disp)
        } else if str_eq(upper, "ACK") {
            Some(Command::Ack)
        } else if str_eq(upper, "NAK") {
            Some(Command::Nak)
        } else if str_eq(upper, "INFO") {
            Some(Command::Info)
        } else if str_eq(upper, "NEXT") {
            Some(Command::Next)
        } else if str_eq(upper, "PREV") {
            Some(Command::Prev)
        } else {
            None
        }
    }

    /// The token, as the text to put on the wire.
    pub fn to_string(&self) -> (r: String)
        ensures
            r@ == self.token(),
    {
        String::from_str(self.as_str())
    }
}

impl<'a> TryFrom<&'a str> for Command {
    type Error = ParseError;

    /// Reads a command, whatever the case of its letters. Any other text is
    /// refused, and the error holds the text as it was given.
    fn try_from(value: &'a str) -> (r: Result<Command, ParseError>)
        ensures
            match Command::from_token(value@) {
                Some(v) => r == Ok::<Command, ParseError>(v),
                None => r is Err && r->Err_0@ == ParseErrorView::InvalidCommand(value@),
            },
    {
        match Command::decode(value) {
            Some(v) => Ok(v),
            None => Err(ParseError::InvalidCommand(String::from_str(value))),
        }
    }
}

/// The result of `try_from` can hold a string, which contracts compare by
/// its view alone: `try_from` states its result itself.
impl<'a> TryFromSpecImpl<&'a str> for Command {
    open spec fn obeys_try_from_spec() -> bool {
        false
    }

    open spec fn try_from_spec(value: &'a str) -> Result<Command, ParseError> {
        arbitrary()
    }
}

impl WireToken for CompetitionType {
    open spec fn token(self) -> Seq<char> {
        match self {
            CompetitionType::Individual => "I"@,
            CompetitionType::Team => "T"@,
        }
    }

    open spec fn spelling(s: Seq<char>) -> Seq<char> {
        s
    }

    open spec fn from_token(s: Seq<char>) -> Option<CompetitionType> {
        if s == "I"@ {
            Some(CompetitionType::Individual)
        } else if s == "T"@ {
            Some(CompetitionType::Team)
        } else {
            None
        }
    }

    fn decode(s: &str) -> (r: Option<CompetitionType>) {
        if str_eq(s, "I") {
            Some(CompetitionType::Individual)
        } else if str_eq(s, "T") {
            Some(CompetitionType::Team)
        } else {
            None
        }
    }

    fn as_str(&self) -> (r: &'static str) {
        match self {
            CompetitionType::Individual => "I",
            CompetitionType::Team => "T",
        }
    }

    proof fn lemma_token_exact(s: Seq<char>, v: CompetitionType) {
        reveal_strlit("I");
        reveal_strlit("T");
        assert("I"@[0] == 'I');
        assert("T"@[0] == 'T');
    }

    proof fn lemma_token_reads_back(self) {
        reveal_strlit("I");
        reveal_strlit("T");
        assert("I"@[0] == 'I');
        assert("T"@[0] == 'T');
    }
}

impl CompetitionType {
    /// The token, as the text to put on the wire.
    pub fn to_string(&self) -> (r: String)
        ensures
            r@ == self.token(),
    {
        String::from_str(self.as_str())
    }
}

impl<'a> TryFrom<&'a str> for CompetitionType {
    type Error = ParseError;

    /// Reads a competition type from its token. Any other text is refused, and
    /// the error holds the field's name and the text.
    fn try_from(value: &'a str) -> (r: Result<CompetitionType, ParseError>)
        ensures
            match CompetitionType::from_token(value@) {
                Some(v) => r == Ok::<CompetitionType, ParseError>(v),
                None => r is Err && r->Err_0@ == (ParseErrorView::InvalidValue {
                    field: "competition_type"@,
                    value: value@,
                }),
            },
    {
        match CompetitionType::decode(value) {
            Some(v) => Ok(v),
            None => Err(ParseError::InvalidValue {
                field: "competition_type",
                value: String::from_str(value),
            }),
        }
    }
}

/// The result of `try_from` can hold a string, which contracts compare by
/// its view alone: `try_from` states its result itself.
impl<'a> TryFromSpecImpl<&'a str> for CompetitionType {
    open spec fn obeys_try_from_spec() -> bool {
        false
    }

    open spec fn try_from_spec(value: &'a str) -> Result<CompetitionType, ParseError> {
        arbitrary()
    }
}

impl WireToken for Weapon {
    open spec fn token(self) -> Seq<char> {
        match self {
            Weapon::Foil => "F"@,
            Weapon::Epee => "E"@,
            Weapon::Sabre => "S"@,
        }
    }

    open spec fn spelling(s: Seq<char>) -> Seq<char> {
        s
    }

    open spec fn from_token(s: Seq<char>) -> Option<Weapon> {
        if s == "F"@ {
            Some(Weapon::Foil)
        } else if s == "E"@ {
            Some(Weapon::Epee)
        } else if s == "S"@ {
            Some(Weapon::Sabre)
        } else {
            None
        }
    }

    fn decode(s: &str) -> (r: Option<Weapon>) {
        if str_eq(s, "F") {
            Some(Weapon::Foil)
        } else if str_eq(s, "E") {
            Some(Weapon::Epee)
        } else if str_eq(s, "S") {
            Some(Weapon::Sabre)
        } else {
            None
        }
    }

    fn as_str(&self) -> (r: &'static str) {
        match self {
            Weapon::Foil => "F",
            Weapon::Epee => "E",
            Weapon::Sabre => "S",
        }
    }

    proof fn lemma_token_exact(s: Seq<char>, v: Weapon) {
        reveal_strlit("F");
        reveal_strlit("E");
        reveal_strlit("S");
        assert("F"@[0] == 'F');
        assert("E"@[0] == 'E');
        assert("S"@[0] == 'S');
    }

    proof fn lemma_token_reads_back(self) {
        reveal_strlit("F");
        reveal_strlit("E");
        reveal_strlit("S");
        assert("F"@[0] == 'F');
        assert("E"@[0] == 'E');
        assert("S"@[0] == 'S');
    }
}

impl Weapon {
    /// The token, as the text to put on the wire.
    pub fn to_string(&self) -> (r: String)
        ensures
            r@ == self.token(),
    {
        String::from_str(self.as_str())
    }
}

impl<'a> TryFrom<&'a str> for Weapon {
    type Error = ParseError;

    /// Reads a weapon from its token. Any other text is refused, and the error
    /// holds the field's name and the text.
    fn try_from(value: &'a str) -> (r: Result<Weapon, ParseError>)
        ensures
            match Weapon::from_token(value@) {
                Some(v) => r == Ok::<Weapon, ParseError>(v),
                None => r is Err && r->Err_0@ == (ParseErrorView::InvalidValue {
                    field: "weapon"@,
                    value: value@,
                }),
            },
    {
        match Weapon::decode(value) {
            Some(v) => Ok(v),
            None => Err(ParseError::InvalidValue {
                field: "weapon",
                value: String::from_str(value),
            }),
        }
    }
}

/// The result of `try_from` can hold a string, which contracts compare by
/// its view alone: `try_from` states its result itself.
impl<'a> TryFromSpecImpl<&'a str> for Weapon {
    open spec fn obeys_try_from_spec() -> bool {
        false
    }

    open spec fn try_from_spec(value: &'a str) -> Result<Weapon, ParseError> {
        arbitrary()
    }
}

impl WireToken for Priority {
    open spec fn token(self) -> Seq<char> {
        match self {
            Priority::NoPriority => "N"@,
            Priority::Right => "R"@,
            Priority::Left => "L"@,
        }
    }

    open spec fn spelling(s: Seq<char>) -> Seq<char> {
        s
    }

    open spec fn from_token(s: Seq<char>) -> Option<Priority> {
        if s == "N"@ {
            Some(Priority::NoPriority)
        } else if s == "R"@ {
            Some(Priority::Right)
        } else if s == "L"@ {
            Some(Priority::Left)
        } else {
            None
        }
    }

    fn decode(s: &str) -> (r: Option<Priority>) {
        if str_eq(s, "N") {
            Some(Priority::NoPriority)
        } else if str_eq(s, "R") {
            Some(Priority::Right)
        } else if str_eq(s, "L") {
            Some(Priority::Left)
        } else {
            None
        }
    }

    fn as_str(&self) -> (r: &'static str) {
        match self {
            Priority::NoPriority => "N",
            Priority::Right => "R",
            Priority::Left => "L",
        }
    }

    proof fn lemma_token_exact(s: Seq<char>, v: Priority) {
        reveal_strlit("N");
        reveal_strlit("R");
        reveal_strlit("L");
        assert("N"@[0] == 'N');
        assert("R"@[0] == 'R');
        assert("L"@[0] == 'L');
    }

    proof fn lemma_token_reads_back(self) {
        reveal_strlit("N");
        reveal_strlit("R");
        reveal_strlit("L");
        assert("N"@[0] == 'N');
        assert("R"@[0] == 'R');
        assert("L"@[0] == 'L');
    }
}

impl Priority {
    /// The token, as the text to put on the wire.
    pub fn to_string(&self) -> (r: String)
        ensures
            r@ == self.token(),
    {
        String::from_str(self.as_str())
    }
}

impl<'a> TryFrom<&'a str> for Priority {
    type Error = ParseError;

    /// Reads a priority from its token. Any other text is refused, and the
    /// error holds the field's name and the text.
    fn try_from(value: &'a str) -> (r: Result<Priority, ParseError>)
        ensures
            match Priority::from_token(value@) {
                Some(v) => r == Ok::<Priority, ParseError>(v),
                None => r is Err && r->Err_0@ == (ParseErrorView::InvalidValue {
                    field: "priority"@,
                    value: value@,
                }),
            },
    {
        match Priority::decode(value) {
            Some(v) => Ok(v),
            None => Err(ParseError::InvalidValue {
                field: "priority",
                value: String::from_str(value),
            }),
        }
    }
}

/// The result of `try_from` can hold a string, which contracts compare by
/// its view alone: `try_from` states its result itself.
impl<'a> TryFromSpecImpl<&'a str> for Priority {
    open spec fn obeys_try_from_spec() -> bool {
        false
    }

    open spec fn try_from_spec(value: &'a str) -> Result<Priority, ParseError> {
        arbitrary()
    }
}

impl WireToken for ApparatusState {
    open spec fn token(self) -> Seq<char> {
        match self {
            ApparatusState::Fencing => "F"@,
            ApparatusState::Halt => "H"@,
            ApparatusState::Pause => "P"@,
            ApparatusState::Waiting => "W"@,
            ApparatusState::Ending => "E"@,
        }
    }

    open spec fn spelling(s: Seq<char>) -> Seq<char> {
        s
    }

    open spec fn from_token(s: Seq<char>) -> Option<ApparatusState> {
        if s == "F"@ {
            Some(ApparatusState::Fencing)
        } else if s == "H"@ {
            Some(ApparatusState::Halt)
        } else if s == "P"@ {
            Some(ApparatusState::Pause)
        } else if s == "W"@ {
            Some(ApparatusState::Waiting)
        } else if s == "E"@ {
            Some(ApparatusState::Ending)
        } else {
            None
        }
    }

    fn decode(s: &str) -> (r: Option<ApparatusState>) {
        if str_eq(s, "F") {
            Some(ApparatusState::Fencing)
        } else if str_eq(s, "H") {
            Some(ApparatusState::Halt)
        } else if str_eq(s, "P") {
            Some(ApparatusState::Pause)
        } else if str_eq(s, "W") {
            Some(ApparatusState::Waiting)
        } else if str_eq(s, "E") {
            Some(ApparatusState::Ending)
        } else {
            None
        }
    }

    fn as_str(&self) -> (r: &'static str) {
        match self {
            ApparatusState::Fencing => "F",
            ApparatusState::Halt => "H",
            ApparatusState::Pause => "P",
            ApparatusState::Waiting => "W",
            ApparatusState::Ending => "E",
        }
    }

    proof fn lemma_token_exact(s: Seq<char>, v: ApparatusState) {
        reveal_strlit("F");
        reveal_strlit("H");
        reveal_strlit("P");
        reveal_strlit("W");
        reveal_strlit("E");
        assert("F"@[0] == 'F');
        assert("H"@[0] == 'H');
        assert("P"@[0] == 'P');
        assert("W"@[0] == 'W');
        assert("E"@[0] == 'E');
    }

    proof fn lemma_token_reads_back(self) {
        reveal_strlit("F");
        reveal_strlit("H");
        reveal_strlit("P");
        reveal_strlit("W");
        reveal_strlit("E");
        assert("F"@[0] == 'F');
        assert("H"@[0] == 'H');
        assert("P"@[0] == 'P');
        assert("W"@[0] == 'W');
        assert("E"@[0] == 'E');
    }
}

impl ApparatusState {
    /// The token, as the text to put on the wire.
    pub fn to_string(&self) -> (r: String)
        ensures
            r@ == self.token(),
    {
        String::from_str(self.as_str())
    }
}

impl<'a> TryFrom<&'a str> for ApparatusState {
    type Error = ParseError;

    /// Reads a state from its token. Any other text is refused, and the error
    /// holds the field's name and the text.
    fn try_from(value: &'a str) -> (r: Result<ApparatusState, ParseError>)
        ensures
            match ApparatusState::from_token(value@) {
                Some(v) => r == Ok::<ApparatusState, ParseError>(v),
                None => r is Err && r->Err_0@ == (ParseErrorView::InvalidValue {
                    field: "state"@,
                    value: value@,
                }),
            },
    {
        match ApparatusState::decode(value) {
            Some(v) => Ok(v),
            None => Err(ParseError::InvalidValue {
                field: "state",
                value: String::from_str(value),
            }),
        }
    }
}

/// The result of `try_from` can hold a string, which contracts compare by
/// its view alone: `try_from` states its result itself.
impl<'a> TryFromSpecImpl<&'a str> for ApparatusState {
    open spec fn obeys_try_from_spec() -> bool {
        false
    }

    open spec fn try_from_spec(value: &'a str) -> Result<ApparatusState, ParseError> {
        arbitrary()
    }
}

impl WireToken for FencerStatus {
    open spec fn token(self) -> Seq<char> {
        match self {
            FencerStatus::Undefined => "U"@,
            FencerStatus::Victory => "V"@,
            FencerStatus::Defeat => "D"@,
            FencerStatus::Abandonment => "A"@,
            FencerStatus::Exclusion => "E"@,
        }
    }

    open spec fn spelling(s: Seq<char>) -> Seq<char> {
        s
    }

    open spec fn from_token(s: Seq<char>) -> Option<FencerStatus> {
        if s == "U"@ {
            Some(FencerStatus::Undefined)
        } else if s == "V"@ {
            Some(FencerStatus::Victory)
        } else if s == "D"@ {
            Some(FencerStatus::Defeat)
        } else if s == "A"@ {
            Some(FencerStatus::Abandonment)
        } else if s == "E"@ {
            Some(FencerStatus::Exclusion)
        } else {
            None
        }
    }

    fn decode(s: &str) -> (r: Option<FencerStatus>) {
        if str_eq(s, "U") {
            Some(FencerStatus::Undefined)
        } else if str_eq(s, "V") {
            Some(FencerStatus::Victory)
        } else if str_eq(s, "D") {
            Some(FencerStatus::Defeat)
        } else if str_eq(s, "A") {
            Some(FencerStatus::Abandonment)
        } else if str_eq(s, "E") {
            Some(FencerStatus::Exclusion)
        } else {
            None
        }
    }

    fn as_str(&self) -> (r: &'static str) {
        match self {
            FencerStatus::Undefined => "U",
            FencerStatus::Victory => "V",
            FencerStatus::Defeat => "D",
            FencerStatus::Abandonment => "A",
            FencerStatus::Exclusion => "E",
        }
    }

    proof fn lemma_token_exact(s: Seq<char>, v: FencerStatus) {
        reveal_strlit("U");
        reveal_strlit("V");
        reveal_strlit("D");
        reveal_strlit("A");
        reveal_strlit("E");
        assert("U"@[0] == 'U');
        assert("V"@[0] == 'V');
        assert("D"@[0] == 'D');
        assert("A"@[0] == 'A');
        assert("E"@[0] == 'E');
    }

    proof fn lemma_token_reads_back(self) {
        reveal_strlit("U");
        reveal_strlit("V");
        reveal_strlit("D");
        reveal_strlit("A");
        reveal_strlit("E");
        assert("U"@[0] == 'U');
        assert("V"@[0] == 'V');
        assert("D"@[0] == 'D');
        assert("A"@[0] == 'A');
        assert("E"@[0] == 'E');
    }
}

impl FencerStatus {
    /// The token, as the text to put on the wire.
    pub fn to_string(&self) -> (r: String)
        ensures
            r@ == self.token(),
    {
        String::from_str(self.as_str())
    }
}

impl<'a> TryFrom<&'a str> for FencerStatus {
    type Error = ParseError;

    /// Reads a status from its token. Any other text is refused, and the error
    /// holds the field's name and the text.
    fn try_from(value: &'a str) -> (r: Result<FencerStatus, ParseError>)
        ensures
            match FencerStatus::from_token(value@) {
                Some(v) => r == Ok::<FencerStatus, ParseError>(v),
                None => r is Err && r->Err_0@ == (ParseErrorView::InvalidValue {
                    field: "fencer_status"@,
                    value: value@,
                }),
            },
    {
        match FencerStatus::decode(value) {
            Some(v) => Ok(v),
            None => Err(ParseError::InvalidValue {
                field: "fencer_status",
                value: String::from_str(value),
            }),
        }
    }
}

/// The result of `try_from` can hold a string, which contracts compare by
/// its view alone: `try_from` states its result itself.
impl<'a> TryFromSpecImpl<&'a str> for FencerStatus {
    open spec fn obeys_try_from_spec() -> bool {
        false
    }

    open spec fn try_from_spec(value: &'a str) -> Result<FencerStatus, ParseError> {
        arbitrary()
    }
}

impl WireToken for Reserve {
    open spec fn token(self) -> Seq<char> {
        match self {
            Reserve::NoReserve => "N"@,
            Reserve::Introduce => "R"@,
        }
    }

    open spec fn spelling(s: Seq<char>) -> Seq<char> {
        s
    }

    open spec fn from_token(s: Seq<char>) -> Option<Reserve> {
        if s == "N"@ {
            Some(Reserve::NoReserve)
        } else if s == "R"@ {
            Some(Reserve::Introduce)
        } else {
            None
        }
    }

    fn decode(s: &str) -> (r: Option<Reserve>) {
        if str_eq(s, "N") {
            Some(Reserve::NoReserve)
        } else if str_eq(s, "R") {
            Some(Reserve::Introduce)
        } else {
            None
        }
    }

    fn as_str(&self) -> (r: &'static str) {
        match self {
            Reserve::NoReserve => "N",
            Reserve::Introduce => "R",
        }
    }

    proof fn lemma_token_exact(s: Seq<char>, v: Reserve) {
        reveal_strlit("N");
        reveal_strlit("R");
        assert("N"@[0] == 'N');
        assert("R"@[0] == 'R');
    }

    proof fn lemma_token_reads_back(self) {
        reveal_strlit("N");
        reveal_strlit("R");
        assert("N"@[0] == 'N');
        assert("R"@[0] == 'R');
    }
}

impl Reserve {
    /// The token, as the text to put on the wire.
    pub fn to_string(&self) -> (r: String)
        ensures
            r@ == self.token(),
    {
        String::from_str(self.as_str())
    }
}

impl<'a> TryFrom<&'a str> for Reserve {
    type Error = ParseError;

    /// Reads a reserve indicator from its token. Any other text is refused, and
    /// the error holds the field's name and the text.
    fn try_from(value: &'a str) -> (r: Result<Reserve, ParseError>)
        ensures
            match Reserve::from_token(value@) {
                Some(v) => r == Ok::<Reserve, ParseError>(v),
                None => r is Err && r->Err_0@ == (ParseErrorView::InvalidValue {
                    field: "reserve"@,
                    value: value@,
                }),
            },
    {
        match Reserve::decode(value) {
            Some(v) => Ok(v),
            None => Err(ParseError::InvalidValue {
                field: "reserve",
                value: String::from_str(value),
            }),
        }
    }
}

/// The result of `try_from` can hold a string, which contracts compare by
/// its view alone: `try_from` states its result itself.
impl<'a> TryFromSpecImpl<&'a str> for Reserve {
    open spec fn obeys_try_from_spec() -> bool {
        false
    }

    open spec fn try_from_spec(value: &'a str) -> Result<Reserve, ParseError> {
        arbitrary()
    }
}

impl WireToken for PCard {
    open spec fn token(self) -> Seq<char> {
        match self {
            PCard::NoCard => "0"@,
            PCard::Yellow => "1"@,
            PCard::OneRed => "2"@,
            PCard::TwoRed => "3"@,
            PCard::OneBlack => "4"@,
            PCard::TwoBlack => "5"@,
        }
    }

    open spec fn spelling(s: Seq<char>) -> Seq<char> {
        s
    }

    open spec fn from_token(s: Seq<char>) -> Option<PCard> {
        if s == "0"@ {
            Some(PCard::NoCard)
        } else if s == "1"@ {
            Some(PCard::Yellow)
        } else if s == "2"@ {
            Some(PCard::OneRed)
        } else if s == "3"@ {
            Some(PCard::TwoRed)
        } else if s == "4"@ {
            Some(PCard::OneBlack)
        } else if s == "5"@ {
            Some(PCard::TwoBlack)
        } else {
            None
        }
    }

    fn decode(s: &str) -> (r: Option<PCard>) {
        if str_eq(s, "0") {
            Some(PCard::NoCard)
        } else if str_eq(s, "1") {
            Some(PCard::Yellow)
        } else if str_eq(s, "2") {
            Some(PCard::OneRed)
        } else if str_eq(s, "3") {
            Some(PCard::TwoRed)
        } else if str_eq(s, "4") {
            Some(PCard::OneBlack)
        } else if str_eq(s, "5") {
            Some(PCard::TwoBlack)
        } else {
            None
        }
    }

    fn as_str(&self) -> (r: &'static str) {
        match self {
            PCard::NoCard => "0",
            PCard::Yellow => "1",
            PCard::OneRed => "2",
            PCard::TwoRed => "3",
            PCard::OneBlack => "4",
            PCard::TwoBlack => "5",
        }
    }

    proof fn lemma_token_exact(s: Seq<char>, v: PCard) {
        reveal_strlit("0");
        reveal_strlit("1");
        reveal_strlit("2");
        reveal_strlit("3");
        reveal_strlit("4");
        reveal_strlit("5");
        assert("0"@[0] == '0');
        assert("1"@[0] == '1');
        assert("2"@[0] == '2');
        assert("3"@[0] == '3');
        assert("4"@[0] == '4');
        assert("5"@[0] == '5');
    }

    proof fn lemma_token_reads_back(self) {
        reveal_strlit("0");
        reveal_strlit("1");
        reveal_strlit("2");
        reveal_strlit("3");
        reveal_strlit("4");
        reveal_strlit("5");
        assert("0"@[0] == '0');
        assert("1"@[0] == '1');
        assert("2"@[0] == '2');
        assert("3"@[0] == '3');
        assert("4"@[0] == '4');
        assert("5"@[0] == '5');
    }
}

impl PCard {
    /// The token, as the text to put on the wire.
    pub fn to_string(&self) -> (r: String)
        ensures
            r@ == self.token(),
    {
        String::from_str(self.as_str())
    }
}

impl<'a> TryFrom<&'a str> for PCard {
    type Error = ParseError;

    /// Reads a penalty card status from its token. Any other text is refused,
    /// and the error holds the field's name and the text.
    fn try_from(value: &'a str) -> (r: Result<PCard, ParseError>)
        ensures
            match PCard::from_token(value@) {
                Some(v) => r == Ok::<PCard, ParseError>(v),
                None => r is Err && r->Err_0@ == (ParseErrorView::InvalidValue {
                    field: "p_card"@,
                    value: value@,
                }),
            },
    {
        match PCard::decode(value) {
            Some(v) => Ok(v),
            None => Err(ParseError::InvalidValue {
                field: "p_card",
                value: String::from_str(value),
            }),
        }
    }
}

/// The result of `try_from` can hold a string, which contracts compare by
/// its view alone: `try_from` states its result itself.
impl<'a> TryFromSpecImpl<&'a str> for PCard {
    open spec fn obeys_try_from_spec() -> bool {
        false
    }

    open spec fn try_from_spec(value: &'a str) -> Result<PCard, ParseError> {
        arbitrary()
    }
}

/// Commands are read without regard to the case of ASCII letters: two ASCII
/// texts that differ in case alone read as the same command, or both as none.
pub proof fn lemma_command_ignores_case(s: Seq<char>, t: Seq<char>)
    requires
        vstd::utf8::is_ascii_chars(s),
        vstd::utf8::is_ascii_chars(t),
        crate::text::ascii_uppercase(s) == crate::text::ascii_uppercase(t),
    ensures
        Command::from_token(s) == Command::from_token(t),
{
}

} // verus!
