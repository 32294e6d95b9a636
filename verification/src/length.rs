//! Sizing strategies of a component along one axis, in whole pixels.
use vstd::prelude::*;

verus! {

/// How much room a component asks for along one axis.
#[derive(Clone, Copy, Debug, PartialEq, Eq, Structural)]
pub enum Length {
    /// All the room that is left.
    Fill,
    /// A share of the room that is left, relative to its siblings.
    FillPortion(u16),
    /// As little room as possible.
    Shrink,
    /// A fixed number of pixels.
    Fixed(u32),
}

impl Length {
    /// Whether this length grows with the room that is offered.
    pub open spec fn is_fluid(self) -> bool {
        self is Fill || self is FillPortion
    }

    /// This length, adapted so that it can contain `other`: a shrinking
    /// length around fluid content becomes as fluid as the content, and
    /// every other length stays as it is.
    pub open spec fn enclose_spec(self, other: Length) -> Length {
        if self is Shrink && other.is_fluid() {
            other
        } else {
            self
        }
    }

    /// Adapts this length so that it can contain `other`.
    pub fn enclose(self, other: Length) -> (adapted: Length)
        ensures
            adapted == self.enclose_spec(other),
    {
        match (self, other) {
            (Length::Shrink, Length::Fill) => other,
            (Length::Shrink, Length::FillPortion(_)) => other,
            _ => self,
        }
    }
}

/// Sizing strategies along both axes.
#[derive(Clone, Copy, Debug, PartialEq, Eq, Structural)]
pub struct Size {
    pub width: Length,
    pub height: Length,
}

} // verus!
