//! A codec for the Ethernet Fencing Protocol (EFP), versions 1 and 1.1: the
//! lines that electronic scoring equipment sends during a fencing match.
//!
//! A line holds three zones, each ended by a percent sign, and the fields of
//! a zone stand between bars:
//!
//! ```text
//! |general_fields|%|right_fencer_fields|%|left_fencer_fields|%|
//! ```
//!
//! `Message::try_from` decodes a line, and `Message::to_string` encodes a
//! message. Both are pure functions of their argument. What they compute is
//! defined on sequences of characters, by `MessageView::decode` and
//! `MessageView::encode`, and the code is proved to compute it.

/// The closed sets of values and their tokens.
pub mod enums;
/// The ways in which a line can fail to decode.
pub mod error;
/// One fencer's zone of a line.
pub mod fencer;
/// A whole line: decoding and encoding.
pub mod message;
/// Decimal text for small numbers.
pub mod number;
/// When a line is refused, and when it decodes.
pub mod outcome;
/// Reading fields by position.
pub mod parser;
/// The referee of a match.
pub mod referee;
/// Writing a message and reading the line again.
pub mod round_trip;
/// Trimming, splitting and joining text.
pub mod text;
/// Writing fields.
pub mod writer;
/// The tokens of a zone.
pub mod zone;

pub use enums::ApparatusState;
pub use enums::Command;
pub use enums::CompetitionType;
pub use enums::FencerStatus;
pub use enums::PCard;
pub use enums::Priority;
pub use enums::Reserve;
pub use enums::Weapon;
pub use error::ParseError;
pub use fencer::Fencer;
pub use message::Message;
pub use referee::Referee;
