//! A positioned, optionally-moving object with a bounding rectangle:
//! the paddles (repositioned directly, no velocity) and the ball (velocity
//! present from initialization onward).

use vstd::prelude::*;

use crate::geometry::Dimensions;
use crate::geometry::Point;
use crate::geometry::Rect;
use crate::geometry::Velocity;

verus! {

/// A paddle or the ball.
#[derive(Clone, Copy)]
pub struct MoveableObject {
    /// Sprite extent; used only for bounds and collision arithmetic.
    pub dimensions: Dimensions,
    /// Top-left anchor of the sprite.
    pub point: Point,
    /// `None` for paddles, `Some` for the ball once initialized.
    pub velocity: Option<Velocity>,
    /// Collision box: top-left at `point`, extent half of `dimensions`.
    pub rect: Rect,
}

impl MoveableObject {
    /// The data-model invariant: the collision box sits at `point` and its
    /// extent is half the sprite extent, which is non-negative.
    pub open spec fn wf(self) -> bool {
        &&& self.dimensions.width >= 0
        &&& self.dimensions.height >= 0
        &&& self.rect.x == self.point.x
        &&& self.rect.y == self.point.y
        &&& self.rect.w == self.dimensions.width / 2
        &&& self.rect.h == self.dimensions.height / 2
    }

    /// Build an object with its collision box co-located with `point` and
    /// sized to half of `dimensions`.
    pub fn new(dimensions: Dimensions, point: Point, velocity: Option<Velocity>) -> (obj:
        MoveableObject)
        requires
            dimensions.width >= 0,
            dimensions.height >= 0,
        ensures
            obj.dimensions == dimensions,
            obj.point == point,
            obj.velocity == velocity,
            obj.wf(),
    {
        MoveableObject {
            dimensions,
            point,
            velocity,
            rect: Rect::new(point.x, point.y, dimensions.width / 2, dimensions.height / 2),
        }
    }

    /// Move the object to `(x, y)`, keeping the collision box co-located.
    pub fn update_position(&mut self, x: i32, y: i32)
        ensures
            final(self).point.x == x,
            final(self).point.y == y,
            final(self).rect.x == x,
            final(self).rect.y == y,
            final(self).rect.w == old(self).rect.w,
            final(self).rect.h == old(self).rect.h,
            final(self).dimensions == old(self).dimensions,
            final(self).velocity == old(self).velocity,
            old(self).wf() ==> final(self).wf(),
    {
        self.point.x = x;
        self.point.y = y;
        self.rect.move_to(x, y);
    }

    /// Give the object a velocity.
    pub fn update_velocity(&mut self, vel: Velocity)
        ensures
            final(self).velocity == Some(vel),
            final(self).point == old(self).point,
            final(self).rect == old(self).rect,
            final(self).dimensions == old(self).dimensions,
            old(self).wf() ==> final(self).wf(),
    {
        self.velocity = Some(vel);
    }
}

} // verus!
