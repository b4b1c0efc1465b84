//! Swept corrections: where a proposed move along one axis has to stop
//! because an obstacle is in the way.
//!
//! Each function answers for one mover, one obstacle and one direction, and
//! changes neither box. A caller with several obstacles folds the function
//! over them, feeding each answer in as the next proposal. Against
//! obstacles that stand still the order of the fold does not matter; against
//! moving ones it can.
//!
//! Horizontally the obstacle may itself move during the step, and the
//! answer is the point of first contact. Vertically obstacles are taken to
//! stand still, and the answer is the obstacle's edge.

use crate::bounding_box::BoundingBox;
use crate::contact::contact_offset;
use crate::contact::lemma_contact_offset_odd;
use crate::contact::lemma_contact_offset_within_velocity;
use crate::contact::lemma_contact_within_travel;
use crate::contact::offset_at_contact;
use vstd::prelude::*;

verus! {

/// Whether `value` lies between `a` and `b`, ends included, in either order.
pub open spec fn between(value: int, a: int, b: int) -> bool {
    (a <= value <= b) || (b <= value <= a)
}

impl BoundingBox {
    /// A mover that went from `old_x` towards `possible_new_x` runs into the
    /// left edge of `other`: the two overlap vertically, the mover started
    /// at or left of that edge, and would end at or beyond the place that
    /// edge reaches after moving by `velocity_b_x`.
    pub open spec fn spec_reaches_left_edge(
        &self,
        other: &BoundingBox,
        old_x: int,
        possible_new_x: int,
        velocity_b_x: int,
    ) -> bool {
        &&& self.spec_overlapping_y(other)
        &&& old_x <= other.spec_left()
        &&& possible_new_x >= other.spec_left() + velocity_b_x
    }

    /// The mirror image of `spec_reaches_left_edge`, for a mover that comes
    /// from the right of `other`.
    pub open spec fn spec_reaches_right_edge(
        &self,
        other: &BoundingBox,
        old_x: int,
        possible_new_x: int,
        velocity_b_x: int,
    ) -> bool {
        &&& self.spec_overlapping_y(other)
        &&& old_x >= other.spec_right()
        &&& possible_new_x <= other.spec_right() + velocity_b_x
    }

    /// What `get_next_right` returns: the point of first contact with the
    /// left edge of `other` and `true`, or the proposal and `false` where
    /// the mover does not reach that edge or does not close on it at all.
    pub open spec fn spec_next_right(
        &self,
        other: &BoundingBox,
        old_x: int,
        possible_new_x: int,
        velocity_b_x: int,
    ) -> (int, bool) {
        let closing = (possible_new_x - old_x) - velocity_b_x;
        if self.spec_reaches_left_edge(other, old_x, possible_new_x, velocity_b_x) && closing
            != 0 {
            (
                other.spec_left() + contact_offset(
                    velocity_b_x,
                    other.spec_left() - old_x,
                    closing,
                ),
                true,
            )
        } else {
            (possible_new_x, false)
        }
    }

    /// What `get_next_left` returns: the point of first contact with the
    /// right edge of `other` and `true`, or the proposal and `false`.
    pub open spec fn spec_next_left(
        &self,
        other: &BoundingBox,
        old_x: int,
        possible_new_x: int,
        velocity_b_x: int,
    ) -> (int, bool) {
        let closing = (old_x - possible_new_x) + velocity_b_x;
        if self.spec_reaches_right_edge(other, old_x, possible_new_x, velocity_b_x) && closing
            != 0 {
            (
                other.spec_right() + contact_offset(
                    velocity_b_x,
                    old_x - other.spec_right(),
                    closing,
                ),
                true,
            )
        } else {
            (possible_new_x, false)
        }
    }

    /// What `get_next_top` returns: the lower edge of `other` where the
    /// mover, overlapping it horizontally, goes from at or below that edge
    /// to at or above it; else the proposal.
    pub open spec fn spec_next_top(
        &self,
        other: &BoundingBox,
        old_y: int,
        possible_new_y: int,
    ) -> int {
        if self.spec_overlapping_x(other) && old_y <= other.spec_bottom() && possible_new_y
            >= other.spec_bottom() {
            other.spec_bottom()
        } else {
            possible_new_y
        }
    }

    /// What `get_next_bottom` returns: the upper edge of `other` where the
    /// mover, overlapping it horizontally, goes from at or above that edge
    /// to at or below it; else the proposal.
    pub open spec fn spec_next_bottom(
        &self,
        other: &BoundingBox,
        old_y: int,
        possible_new_y: int,
    ) -> int {
        if self.spec_overlapping_x(other) && old_y >= other.spec_top() && possible_new_y
            <= other.spec_top() {
            other.spec_top()
        } else {
            possible_new_y
        }
    }

    /// Corrects a proposed move to the right against `two_dim_object`, whose
    /// own horizontal displacement over the step is `velocity_b_x`.
    ///
    /// Returns the x of first contact with the obstacle's left edge and
    /// `true`, or `possible_new_x` and `false`. A mover that keeps pace with
    /// the obstacle never closes on it, and gets its proposal back. A
    /// corrected x never leaves the stretch between `old_x` and
    /// `possible_new_x`.
    pub fn get_next_right(
        &self,
        two_dim_object: &BoundingBox,
        old_x: i64,
        possible_new_x: i64,
        velocity_b_x: i64,
    ) -> (next: (i64, bool))
        ensures
            next.0 == self.spec_next_right(
                two_dim_object,
                old_x as int,
                possible_new_x as int,
                velocity_b_x as int,
            ).0,
            next.1 == self.spec_next_right(
                two_dim_object,
                old_x as int,
                possible_new_x as int,
                velocity_b_x as int,
            ).1,
            possible_new_x - old_x == velocity_b_x ==> next == (possible_new_x, false),
            between(next.0 as int, old_x as int, possible_new_x as int),
            next.1 ==> between(
                next.0 as int,
                two_dim_object.spec_left(),
                two_dim_object.spec_left() + velocity_b_x,
            ),
    {
        let edge: i128 = two_dim_object.position.x as i128 - two_dim_object.half_size.x as i128;
        if self.overlapping_y(two_dim_object) && old_x as i128 <= edge && possible_new_x as i128
            >= edge + velocity_b_x as i128 {
            let travel: i128 = possible_new_x as i128 - old_x as i128;
            let closing: i128 = travel - velocity_b_x as i128;
            if closing != 0 {
                let gap: i128 = edge - old_x as i128;
                let offset: i64 = offset_at_contact(velocity_b_x, gap as u128, closing as u128);
                proof {
                    lemma_contact_within_travel(
                        velocity_b_x as int,
                        gap as int,
                        closing as int,
                        travel as int,
                    );
                    lemma_contact_offset_within_velocity(
                        velocity_b_x as int,
                        gap as int,
                        closing as int,
                    );
                }
                let contact: i128 = edge + offset as i128;
                return (contact as i64, true);
            }
        }
        (possible_new_x, false)
    }

    /// Corrects a proposed move to the left against `two_dim_object`, whose
    /// own horizontal displacement over the step is `velocity_b_x`.
    ///
    /// The mirror image of `get_next_right`: contact is with the obstacle's
    /// right edge.
    pub fn get_next_left(
        &self,
        two_dim_object: &BoundingBox,
        old_x: i64,
        possible_new_x: i64,
        velocity_b_x: i64,
    ) -> (next: (i64, bool))
        ensures
            next.0 == self.spec_next_left(
                two_dim_object,
                old_x as int,
                possible_new_x as int,
                velocity_b_x as int,
            ).0,
            next.1 == self.spec_next_left(
                two_dim_object,
                old_x as int,
                possible_new_x as int,
                velocity_b_x as int,
            ).1,
            possible_new_x - old_x == velocity_b_x ==> next == (possible_new_x, false),
            between(next.0 as int, old_x as int, possible_new_x as int),
            next.1 ==> between(
                next.0 as int,
                two_dim_object.spec_right(),
                two_dim_object.spec_right() + velocity_b_x,
            ),
    {
        let edge: i128 = two_dim_object.position.x as i128 + two_dim_object.half_size.x as i128;
        if self.overlapping_y(two_dim_object) && old_x as i128 >= edge && possible_new_x as i128
            <= edge + velocity_b_x as i128 {
            let travel: i128 = old_x as i128 - possible_new_x as i128;
            let closing: i128 = travel + velocity_b_x as i128;
            if closing != 0 {
                let gap: i128 = old_x as i128 - edge;
                let offset: i64 = offset_at_contact(velocity_b_x, gap as u128, closing as u128);
                proof {
                    lemma_contact_offset_odd(velocity_b_x as int, gap as int, closing as int);
                    lemma_contact_within_travel(
                        -(velocity_b_x as int),
                        gap as int,
                        closing as int,
                        travel as int,
                    );
                    lemma_contact_offset_within_velocity(
                        velocity_b_x as int,
                        gap as int,
                        closing as int,
                    );
                }
                let contact: i128 = edge + offset as i128;
                return (contact as i64, true);
            }
        }
        (possible_new_x, false)
    }

    /// Corrects a proposed vertical move against the lower edge of
    /// `two_dim_object`, which is taken to stand still: a mover that would
    /// cross that edge from below stops at it.
    pub fn get_next_top(
        &self,
        two_dim_object: &BoundingBox,
        old_y: i64,
        possible_new_y: i64,
    ) -> (next: i64)
        ensures
            next == self.spec_next_top(two_dim_object, old_y as int, possible_new_y as int),
            between(next as int, old_y as int, possible_new_y as int),
    {
        let edge: i128 = two_dim_object.position.y as i128 - two_dim_object.half_size.y as i128;
        if self.overlapping_x(two_dim_object) && old_y as i128 <= edge && possible_new_y as i128
            >= edge {
            edge as i64
        } else {
            possible_new_y
        }
    }

    /// Corrects a proposed vertical move against the upper edge of
    /// `two_dim_object`, which is taken to stand still: a mover that would
    /// cross that edge from above stops at it.
    pub fn get_next_bottom(
        &self,
        two_dim_object: &BoundingBox,
        old_y: i64,
        possible_new_y: i64,
    ) -> (next: i64)
        ensures
            next == self.spec_next_bottom(two_dim_object, old_y as int, possible_new_y as int),
            between(next as int, old_y as int, possible_new_y as int),
    {
        let edge: i128 = two_dim_object.position.y as i128 + two_dim_object.half_size.y as i128;
        if self.overlapping_x(two_dim_object) && old_y as i128 >= edge && possible_new_y as i128
            <= edge {
            edge as i64
        } else {
            possible_new_y
        }
    }
    /// Moving left is moving right in a mirror: if `mirror`, facing
    /// `mirror_other`, is the picture of `self` facing `other` reflected at
    /// the line x = 0, then reflecting the inputs of `get_next_left` and
    /// asking `get_next_right` gives the reflected answer.
    pub proof fn lemma_left_mirrors_right(
        &self,
        other: &BoundingBox,
        mirror: &BoundingBox,
        mirror_other: &BoundingBox,
        old_x: int,
        possible_new_x: int,
        velocity_b_x: int,
    )
        requires
            mirror_other.spec_left() == -other.spec_right(),
            mirror.spec_overlapping_y(mirror_other) == self.spec_overlapping_y(other),
        ensures
            self.spec_next_left(other, old_x, possible_new_x, velocity_b_x).0
                == -mirror.spec_next_right(
                mirror_other,
                -old_x,
                -possible_new_x,
                -velocity_b_x,
            ).0,
            self.spec_next_left(other, old_x, possible_new_x, velocity_b_x).1
                == mirror.spec_next_right(
                mirror_other,
                -old_x,
                -possible_new_x,
                -velocity_b_x,
            ).1,
    {
        let closing = (old_x - possible_new_x) + velocity_b_x;
        if self.spec_reaches_right_edge(other, old_x, possible_new_x, velocity_b_x) && closing
            != 0 {
            lemma_contact_offset_odd(velocity_b_x, old_x - other.spec_right(), closing);
        }
    }

    /// Moving down is moving up in a mirror: the vertical counterpart of
    /// `lemma_left_mirrors_right`, reflected at the line y = 0.
    pub proof fn lemma_bottom_mirrors_top(
        &self,
        other: &BoundingBox,
        mirror: &BoundingBox,
        mirror_other: &BoundingBox,
        old_y: int,
        possible_new_y: int,
    )
        requires
            mirror_other.spec_bottom() == -other.spec_top(),
            mirror.spec_overlapping_x(mirror_other) == self.spec_overlapping_x(other),
        ensures
            self.spec_next_bottom(other, old_y, possible_new_y) == -mirror.spec_next_top(
                mirror_other,
                -old_y,
                -possible_new_y,
            ),
    {
    }

    /// Against an obstacle that stands still, a horizontal correction puts
    /// the mover exactly on the obstacle's edge.
    pub proof fn lemma_standing_obstacle_stops_at_its_edge(
        &self,
        other: &BoundingBox,
        old_x: int,
        possible_new_x: int,
    )
        ensures
            self.spec_next_right(other, old_x, possible_new_x, 0).1 ==> self.spec_next_right(
                other,
                old_x,
                possible_new_x,
                0,
            ).0 == other.spec_left(),
            self.spec_next_left(other, old_x, possible_new_x, 0).1 ==> self.spec_next_left(
                other,
                old_x,
                possible_new_x,
                0,
            ).0 == other.spec_right(),
    {
        if self.spec_next_right(other, old_x, possible_new_x, 0).1 {
            lemma_contact_offset_within_velocity(
                0,
                other.spec_left() - old_x,
                possible_new_x - old_x,
            );
        }
        if self.spec_next_left(other, old_x, possible_new_x, 0).1 {
            lemma_contact_offset_within_velocity(
                0,
                old_x - other.spec_right(),
                old_x - possible_new_x,
            );
        }
    }

    /// A horizontal correction never reports a change without the mover
    /// reaching the obstacle, and a mover that does not reach it keeps its
    /// proposal.
    pub proof fn lemma_unreached_obstacle_changes_nothing(
        &self,
        other: &BoundingBox,
        old_x: int,
        possible_new_x: int,
        velocity_b_x: int,
    )
        ensures
            !self.spec_reaches_left_edge(other, old_x, possible_new_x, velocity_b_x)
                ==> self.spec_next_right(other, old_x, possible_new_x, velocity_b_x) == (
                possible_new_x,
                false,
            ),
            !self.spec_reaches_right_edge(other, old_x, possible_new_x, velocity_b_x)
                ==> self.spec_next_left(other, old_x, possible_new_x, velocity_b_x) == (
                possible_new_x,
                false,
            ),
    {
    }
    /// Horizontal corrections against two obstacles that stand still give
    /// the same position in either order.
    pub proof fn lemma_standing_obstacles_commute(
        &self,
        first: &BoundingBox,
        second: &BoundingBox,
        old_x: int,
        possible_new_x: int,
    )
        ensures
            self.spec_next_right(
                second,
                old_x,
                self.spec_next_right(first, old_x, possible_new_x, 0).0,
                0,
            ).0 == self.spec_next_right(
                first,
                old_x,
                self.spec_next_right(second, old_x, possible_new_x, 0).0,
                0,
            ).0,
            self.spec_next_left(
                second,
                old_x,
                self.spec_next_left(first, old_x, possible_new_x, 0).0,
                0,
            ).0 == self.spec_next_left(
                first,
                old_x,
                self.spec_next_left(second, old_x, possible_new_x, 0).0,
                0,
            ).0,
    {
        let right_first = self.spec_next_right(first, old_x, possible_new_x, 0).0;
        let right_second = self.spec_next_right(second, old_x, possible_new_x, 0).0;
        self.lemma_standing_obstacle_stops_at_its_edge(first, old_x, possible_new_x);
        self.lemma_standing_obstacle_stops_at_its_edge(second, old_x, possible_new_x);
        self.lemma_standing_obstacle_stops_at_its_edge(second, old_x, right_first);
        self.lemma_standing_obstacle_stops_at_its_edge(first, old_x, right_second);
        let left_first = self.spec_next_left(first, old_x, possible_new_x, 0).0;
        let left_second = self.spec_next_left(second, old_x, possible_new_x, 0).0;
        self.lemma_standing_obstacle_stops_at_its_edge(second, old_x, left_first);
        self.lemma_standing_obstacle_stops_at_its_edge(first, old_x, left_second);
    }

    /// Vertical corrections against two obstacles give the same position in
    /// either order.
    pub proof fn lemma_vertical_corrections_commute(
        &self,
        first: &BoundingBox,
        second: &BoundingBox,
        old_y: int,
        possible_new_y: int,
    )
        ensures
            self.spec_next_top(second, old_y, self.spec_next_top(first, old_y, possible_new_y))
                == self.spec_next_top(
                first,
                old_y,
                self.spec_next_top(second, old_y, possible_new_y),
            ),
            self.spec_next_bottom(
                second,
                old_y,
                self.spec_next_bottom(first, old_y, possible_new_y),
            ) == self.spec_next_bottom(
                first,
                old_y,
                self.spec_next_bottom(second, old_y, possible_new_y),
            ),
    {
    }
}

} // verus!
