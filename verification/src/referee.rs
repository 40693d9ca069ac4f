//! The referee of a match.

use crate::writer::is_optional_field_text;
use vstd::prelude::*;

verus! {

/// Information about the referee officiating a fencing match.
#[derive(Debug)]
pub struct Referee {
    /// Unique identifier for the referee.
    pub id: Option<String>,
    /// Full name of the referee.
    pub name: Option<String>,
    /// Three-letter country code of the referee's nation (e.g., "FRA", "USA").
    pub nation: Option<String>,
}

/// What a `Referee` holds, field by field, with each text as a sequence of
/// characters.
pub struct RefereeView {
    pub id: Option<Seq<char>>,
    pub name: Option<Seq<char>>,
    pub nation: Option<Seq<char>>,
}

impl RefereeView {
    /// The referee of whom nothing is known.
    pub open spec fn absent() -> RefereeView {
        RefereeView { id: None, name: None, nation: None }
    }

    /// Whether each text of the referee can stand in a field: it is not
    /// empty and holds no separator.
    pub open spec fn is_canonical(self) -> bool {
        &&& is_optional_field_text(self.id)
        &&& is_optional_field_text(self.name)
        &&& is_optional_field_text(self.nation)
    }
}

impl View for Referee {
    type V = RefereeView;

    open spec fn view(&self) -> RefereeView {
        RefereeView {
            id: self.id.deep_view(),
            name: self.name.deep_view(),
            nation: self.nation.deep_view(),
        }
    }
}

impl Clone for Referee {
    fn clone(&self) -> (r: Referee)
        ensures
            r@ == self@,
    {
        Referee { id: self.id.clone(), name: self.name.clone(), nation: self.nation.clone() }
    }
}

impl Default for Referee {
    fn default() -> (r: Referee)
        ensures
            r@ == RefereeView::absent(),
    {
        Referee { id: None, name: None, nation: None }
    }
}

} // verus!
