//! Stateless mapping from an orientation to a display pattern identifier.
//!
//! The display collaborator renders one of three patterns: vertical bars for
//! the two portrait orientations, horizontal bars for the two landscape
//! orientations, and a diagonal cross for face-up and face-down.

use vstd::prelude::*;

use crate::orientation::Orientation;

verus! {

/// The three display pattern identifiers the display collaborator knows.
#[derive(Clone, Copy, PartialEq, Eq, Structural, Debug)]
pub enum Pattern {
    VerticalBars,
    HorizontalBars,
    DiagonalCross,
}

/// The pattern that stands for each orientation.
pub open spec fn pattern_of(o: Orientation) -> Pattern {
    match o {
        Orientation::Portrait => Pattern::VerticalBars,
        Orientation::PortraitUpsideDown => Pattern::VerticalBars,
        Orientation::LandscapeLeft => Pattern::HorizontalBars,
        Orientation::LandscapeRight => Pattern::HorizontalBars,
        Orientation::FaceUp => Pattern::DiagonalCross,
        Orientation::FaceDown => Pattern::DiagonalCross,
    }
}

/// Maps an orientation to its display pattern. Total and stateless.
pub fn pattern_for(o: Orientation) -> (p: Pattern)
    ensures
        p == pattern_of(o),
{
    match o {
        Orientation::Portrait => Pattern::VerticalBars,
        Orientation::PortraitUpsideDown => Pattern::VerticalBars,
        Orientation::LandscapeLeft => Pattern::HorizontalBars,
        Orientation::LandscapeRight => Pattern::HorizontalBars,
        Orientation::FaceUp => Pattern::DiagonalCross,
        Orientation::FaceDown => Pattern::DiagonalCross,
    }
}

} // verus!
