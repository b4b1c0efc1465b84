//! The box itself: its fields, its edges, and the setters that move it so
//! that one edge lands on a given coordinate.

use crate::vector::TransformPosition;
use crate::vector::Vector2;
use vstd::prelude::*;

verus! {

/// A rectangle with sides parallel to the axes, symmetric around `position`.
///
/// `half_size` is fixed when the box is made. `old_position` is where the box
/// stood before the current step; its owner copies `position` into it at the
/// start of each step. `center` and the two hit-box offsets are carried for
/// the owner's use and read by nothing here.
#[derive(Clone, Copy, Debug, PartialEq, Eq)]
pub struct BoundingBox {
    pub half_size: Vector2,
    pub center: Vector2,
    pub position: Vector2,
    pub old_position: Vector2,
    pub on_ground: bool,
    pub hit_box_offset_front: i64,
    pub hit_box_offset_back: i64,
}

/// Half of a length, rounded toward zero.
pub open spec fn half_of(length: int) -> int {
    if length >= 0 {
        length / 2
    } else {
        -((-length) / 2)
    }
}

/// Whether a mathematical integer is a coordinate the machine can hold.
pub open spec fn representable(value: int) -> bool {
    i64::MIN <= value <= i64::MAX
}

impl BoundingBox {
    /// The invariant of a box: neither half extent is negative.
    pub open spec fn wf(&self) -> bool {
        &&& self.half_size.x >= 0
        &&& self.half_size.y >= 0
    }

    /// `position.y + half_size.y`.
    pub open spec fn spec_top(&self) -> int {
        self.position.y + self.half_size.y
    }

    /// `position.y - half_size.y`.
    pub open spec fn spec_bottom(&self) -> int {
        self.position.y - self.half_size.y
    }

    /// `position.x - half_size.x`.
    pub open spec fn spec_left(&self) -> int {
        self.position.x - self.half_size.x
    }

    /// `position.x + half_size.x`.
    pub open spec fn spec_right(&self) -> int {
        self.position.x + self.half_size.x
    }

    /// This box with its centre at `(x, y)` and everything else as it is.
    pub open spec fn moved_to(&self, x: int, y: int) -> BoundingBox {
        BoundingBox { position: Vector2 { x: x as i64, y: y as i64 }, ..*self }
    }

    /// A box of the given width and height at the origin, off the ground.
    pub fn new(width: i64, height: i64) -> (b: Self)
        ensures
            b.half_size.x == half_of(width as int),
            b.half_size.y == half_of(height as int),
            b.center == (Vector2 { x: 0, y: 0 }),
            b.position == (Vector2 { x: 0, y: 0 }),
            b.old_position == (Vector2 { x: 0, y: 0 }),
            !b.on_ground,
            b.hit_box_offset_front == 0,
            b.hit_box_offset_back == 0,
            width >= 0 && height >= 0 ==> b.wf(),
    {
        BoundingBox {
            half_size: Vector2 { x: width / 2, y: height / 2 },
            center: Vector2 { x: 0, y: 0 },
            position: Vector2 { x: 0, y: 0 },
            old_position: Vector2 { x: 0, y: 0 },
            on_ground: false,
            hit_box_offset_front: 0,
            hit_box_offset_back: 0,
        }
    }

    /// Puts the box's centre at `(x, y)`; nothing else changes.
    pub fn set_position(&mut self, x: i64, y: i64)
        ensures
            *final(self) == old(self).moved_to(x as int, y as int),
            final(self).wf() == old(self).wf(),
    {
        self.position = Vector2 { x, y };
    }

    /// Writes the box's position into where a renderable stands, leaving
    /// its depth alone.
    pub fn update_transform_position(&self, transform: &mut TransformPosition)
        ensures
            *final(transform) == (TransformPosition {
                x: self.position.x,
                y: self.position.y,
                z: old(transform).z,
            }),
    {
        transform.x = self.position.x;
        transform.y = self.position.y;
    }

    /// The y coordinate of the upper edge.
    pub fn top(&self) -> (edge: i64)
        requires
            representable(self.spec_top()),
        ensures
            edge == self.spec_top(),
    {
        self.position.y + self.half_size.y
    }

    /// Moves the box vertically so that its upper edge lies at `top`.
    pub fn set_top(&mut self, top: i64)
        requires
            representable(top - old(self).half_size.y),
        ensures
            *final(self) == old(self).moved_to(
                old(self).position.x as int,
                top - old(self).half_size.y,
            ),
            final(self).spec_top() == top,
            final(self).wf() == old(self).wf(),
    {
        self.position.y = top - self.half_size.y;
    }

    /// The y coordinate of the lower edge.
    pub fn bottom(&self) -> (edge: i64)
        requires
            representable(self.spec_bottom()),
        ensures
            edge == self.spec_bottom(),
    {
        self.position.y - self.half_size.y
    }

    /// Moves the box vertically so that its lower edge lies at `bottom`.
    pub fn set_bottom(&mut self, bottom: i64)
        requires
            representable(bottom + old(self).half_size.y),
        ensures
            *final(self) == old(self).moved_to(
                old(self).position.x as int,
                bottom + old(self).half_size.y,
            ),
            final(self).spec_bottom() == bottom,
            final(self).wf() == old(self).wf(),
    {
        self.position.y = bottom + self.half_size.y;
    }

    /// The x coordinate of the left edge.
    pub fn left(&self) -> (edge: i64)
        requires
            representable(self.spec_left()),
        ensures
            edge == self.spec_left(),
    {
        self.position.x - self.half_size.x
    }

    /// Moves the box horizontally so that its left edge lies at `left`.
    pub fn set_left(&mut self, left: i64)
        requires
            representable(left + old(self).half_size.x),
        ensures
            *final(self) == old(self).moved_to(
                left + old(self).half_size.x,
                old(self).position.y as int,
            ),
            final(self).spec_left() == left,
            final(self).wf() == old(self).wf(),
    {
        self.position.x = left + self.half_size.x;
    }

    /// The x coordinate of the right edge.
    pub fn right(&self) -> (edge: i64)
        requires
            representable(self.spec_right()),
        ensures
            edge == self.spec_right(),
    {
        self.position.x + self.half_size.x
    }

    /// Moves the box horizontally so that its right edge lies at `right`.
    pub fn set_right(&mut self, right: i64)
        requires
            representable(right - old(self).half_size.x),
        ensures
            *final(self) == old(self).moved_to(
                right - old(self).half_size.x,
                old(self).position.y as int,
            ),
            final(self).spec_right() == right,
            final(self).wf() == old(self).wf(),
    {
        self.position.x = right - self.half_size.x;
    }

    /// Setting an edge and reading it back gives what was set, whatever the
    /// half extents, as long as the centre this asks for is representable.
    pub proof fn lemma_edge_round_trip(&self, edge: i64)
        ensures
            representable(edge - self.half_size.y) ==> self.moved_to(
                self.position.x as int,
                edge - self.half_size.y,
            ).spec_top() == edge,
            representable(edge + self.half_size.y) ==> self.moved_to(
                self.position.x as int,
                edge + self.half_size.y,
            ).spec_bottom() == edge,
            representable(edge + self.half_size.x) ==> self.moved_to(
                edge + self.half_size.x,
                self.position.y as int,
            ).spec_left() == edge,
            representable(edge - self.half_size.x) ==> self.moved_to(
                edge - self.half_size.x,
                self.position.y as int,
            ).spec_right() == edge,
    {
    }

    /// Moving a box changes neither its extents nor whether it keeps the
    /// invariant.
    pub proof fn lemma_moving_keeps_extents(&self, x: int, y: int)
        ensures
            self.moved_to(x, y).half_size == self.half_size,
            self.moved_to(x, y).wf() == self.wf(),
            self.moved_to(x, y).spec_right() - self.moved_to(x, y).spec_left() == 2
                * self.half_size.x,
            self.moved_to(x, y).spec_top() - self.moved_to(x, y).spec_bottom() == 2
                * self.half_size.y,
    {
    }
}

impl Default for BoundingBox {
    /// The box of no extent at the origin.
    fn default() -> (b: Self)
        ensures
            b == (BoundingBox {
                half_size: Vector2 { x: 0, y: 0 },
                center: Vector2 { x: 0, y: 0 },
                position: Vector2 { x: 0, y: 0 },
                old_position: Vector2 { x: 0, y: 0 },
                on_ground: false,
                hit_box_offset_front: 0,
                hit_box_offset_back: 0,
            }),
            b.wf(),
    {
        BoundingBox {
            half_size: Vector2 { x: 0, y: 0 },
            center: Vector2 { x: 0, y: 0 },
            position: Vector2 { x: 0, y: 0 },
            old_position: Vector2 { x: 0, y: 0 },
            on_ground: false,
            hit_box_offset_front: 0,
            hit_box_offset_back: 0,
        }
    }
}

} // verus!
