//! Overlap tests between two boxes.
//!
//! The two span tests compare edges and serve the swept corrections: a
//! correction along one axis applies only to boxes whose spans on the other
//! axis intersect. The centre-distance test is the stand-alone question
//! "do these two boxes intersect now", as asked for hits. In every test,
//! boxes that merely touch do not overlap.

use crate::bounding_box::BoundingBox;
use vstd::prelude::*;

verus! {

/// The absolute value of an integer.
pub open spec fn magnitude(value: int) -> int {
    if value < 0 {
        -value
    } else {
        value
    }
}

impl BoundingBox {
    /// The horizontal spans intersect in more than a point.
    pub open spec fn spec_overlapping_x(&self, other: &Self) -> bool {
        self.spec_left() < other.spec_right() && other.spec_left() < self.spec_right()
    }

    /// The vertical spans intersect in more than a point.
    pub open spec fn spec_overlapping_y(&self, other: &Self) -> bool {
        self.spec_bottom() < other.spec_top() && other.spec_bottom() < self.spec_top()
    }

    /// On both axes the centres are closer than the half extents add up to.
    pub open spec fn spec_is_overlapping_with(&self, other: &Self) -> bool {
        &&& magnitude(self.position.x - other.position.x) < magnitude(
            self.half_size.x + other.half_size.x,
        )
        &&& magnitude(self.position.y - other.position.y) < magnitude(
            self.half_size.y + other.half_size.y,
        )
    }

    /// Whether the horizontal spans of the two boxes intersect, edges
    /// excluded.
    pub fn overlapping_x(&self, other: &Self) -> (overlapping: bool)
        ensures
            overlapping == self.spec_overlapping_x(other),
    {
        let self_left: i128 = self.position.x as i128 - self.half_size.x as i128;
        let self_right: i128 = self.position.x as i128 + self.half_size.x as i128;
        let other_left: i128 = other.position.x as i128 - other.half_size.x as i128;
        let other_right: i128 = other.position.x as i128 + other.half_size.x as i128;
        self_left < other_right && other_left < self_right
    }

    /// Whether the vertical spans of the two boxes intersect, edges
    /// excluded.
    pub fn overlapping_y(&self, other: &Self) -> (overlapping: bool)
        ensures
            overlapping == self.spec_overlapping_y(other),
    {
        let self_bottom: i128 = self.position.y as i128 - self.half_size.y as i128;
        let self_top: i128 = self.position.y as i128 + self.half_size.y as i128;
        let other_bottom: i128 = other.position.y as i128 - other.half_size.y as i128;
        let other_top: i128 = other.position.y as i128 + other.half_size.y as i128;
        self_bottom < other_top && other_bottom < self_top
    }

    /// Whether the two boxes intersect, judged by the distance between
    /// their centres. Boxes whose centres are exactly the sum of the half
    /// extents apart on either axis do not.
    pub fn is_overlapping_with(&self, other: &BoundingBox) -> (overlapping: bool)
        ensures
            overlapping == self.spec_is_overlapping_with(other),
    {
        let apart_x: i128 = magnitude_of(self.position.x as i128 - other.position.x as i128);
        let reach_x: i128 = magnitude_of(self.half_size.x as i128 + other.half_size.x as i128);
        let apart_y: i128 = magnitude_of(self.position.y as i128 - other.position.y as i128);
        let reach_y: i128 = magnitude_of(self.half_size.y as i128 + other.half_size.y as i128);
        if apart_x >= reach_x {
            false
        } else if apart_y >= reach_y {
            false
        } else {
            true
        }
    }

    /// Either span test gives the same answer whichever box asks.
    pub proof fn lemma_span_overlap_symmetric(&self, other: &Self)
        ensures
            self.spec_overlapping_x(other) == other.spec_overlapping_x(self),
            self.spec_overlapping_y(other) == other.spec_overlapping_y(self),
    {
    }

    /// The centre-distance test gives the same answer whichever box asks.
    pub proof fn lemma_overlap_symmetric(&self, other: &Self)
        ensures
            self.spec_is_overlapping_with(other) == other.spec_is_overlapping_with(self),
    {
    }

    /// Two boxes at one position, each with positive half extents, pass
    /// all three tests.
    pub proof fn lemma_same_position_overlaps(&self, other: &Self)
        requires
            self.position == other.position,
            self.half_size.x > 0,
            self.half_size.y > 0,
            other.half_size.x > 0,
            other.half_size.y > 0,
        ensures
            self.spec_overlapping_x(other),
            self.spec_overlapping_y(other),
            self.spec_is_overlapping_with(other),
    {
    }

    /// Boxes whose centres are exactly the sum of the half extents apart on
    /// one axis touch there: the centre-distance test fails, and so does the
    /// span test of that axis, whatever holds on the other axis.
    pub proof fn lemma_touching_is_not_overlapping(&self, other: &Self)
        ensures
            magnitude(self.position.x - other.position.x) == self.half_size.x + other.half_size.x
                ==> !self.spec_is_overlapping_with(other) && !self.spec_overlapping_x(other),
            magnitude(self.position.y - other.position.y) == self.half_size.y + other.half_size.y
                ==> !self.spec_is_overlapping_with(other) && !self.spec_overlapping_y(other),
    {
    }

    /// For boxes that keep the invariant, the centre-distance test holds
    /// exactly when both span tests do.
    pub proof fn lemma_overlap_is_both_spans(&self, other: &Self)
        requires
            self.wf(),
            other.wf(),
        ensures
            self.spec_is_overlapping_with(other) == (self.spec_overlapping_x(other)
                && self.spec_overlapping_y(other)),
    {
    }
}

/// Computes `magnitude` for machine integers.
fn magnitude_of(value: i128) -> (size: i128)
    requires
        value > i128::MIN,
    ensures
        size == magnitude(value as int),
{
    if value < 0 {
        -value
    } else {
        value
    }
}

} // verus!
