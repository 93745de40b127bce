//! Court regions and per-tick court configuration.

use vstd::prelude::*;

verus! {

/// A subdivision of the court: one of the four serve quadrants, or outside
/// the playable bounds altogether.
#[derive(Clone, Copy, PartialEq, Eq, Structural, Debug)]
pub enum CourtRegion {
    TopLeft,
    BottomLeft,
    TopRight,
    BottomRight,
    OutOfBounds,
}

impl CourtRegion {
    /// Whether the region lies on the left half of the court.
    pub fn is_left(&self) -> (r: bool)
        ensures
            r == (*self == CourtRegion::TopLeft || *self == CourtRegion::BottomLeft),
    {
        matches!(*self, CourtRegion::TopLeft | CourtRegion::BottomLeft)
    }

    /// Whether the region lies on the right half of the court.
    pub fn is_right(&self) -> (r: bool)
        ensures
            r == (*self == CourtRegion::TopRight || *self == CourtRegion::BottomRight),
    {
        matches!(*self, CourtRegion::TopRight | CourtRegion::BottomRight)
    }

    /// Whether the region is the top row.
    pub fn is_top(&self) -> (r: bool)
        ensures
            r == (*self == CourtRegion::TopLeft || *self == CourtRegion::TopRight),
    {
        matches!(*self, CourtRegion::TopLeft | CourtRegion::TopRight)
    }

    /// Whether the region is the bottom row.
    pub fn is_bottom(&self) -> (r: bool)
        ensures
            r == (*self == CourtRegion::BottomLeft || *self == CourtRegion::BottomRight),
    {
        matches!(*self, CourtRegion::BottomLeft | CourtRegion::BottomRight)
    }

    /// Whether the region lies outside the playable court.
    pub fn is_out_of_bounds(&self) -> (r: bool)
        ensures
            r == (*self == CourtRegion::OutOfBounds),
    {
        matches!(*self, CourtRegion::OutOfBounds)
    }

    /// The id of the player whose half holds this region.
    pub fn get_player_id(&self) -> (r: usize)
        requires
            *self != CourtRegion::OutOfBounds,
        ensures
            r == 1 <==> (*self == CourtRegion::TopLeft || *self == CourtRegion::BottomLeft),
            r == 1 || r == 2,
    {
        if self.is_left() {
            1
        } else {
            2
        }
    }
}

/// A serve region on the left half, the row picked by the caller (the pick
/// is random in play and is supplied from outside the simulation core).
pub fn left_region(bottom: bool) -> (r: CourtRegion)
    ensures
        bottom ==> r == CourtRegion::BottomLeft,
        !bottom ==> r == CourtRegion::TopLeft,
{
    if bottom {
        CourtRegion::BottomLeft
    } else {
        CourtRegion::TopLeft
    }
}

/// A serve region on the right half, the row picked by the caller.
pub fn right_region(bottom: bool) -> (r: CourtRegion)
    ensures
        bottom ==> r == CourtRegion::BottomRight,
        !bottom ==> r == CourtRegion::TopRight,
{
    if bottom {
        CourtRegion::BottomRight
    } else {
        CourtRegion::TopRight
    }
}

} // verus!
