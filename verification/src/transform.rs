//! Where an entity is.

use vstd::prelude::*;

verus! {

/// The placement of an entity. `P` is the type of a world position, `O`
/// that of the visual origin and `S` that of the scale.
#[derive(Copy, Clone, Debug)]
pub struct TransformComponent<P, O, S> {
    /// The position in this tick.
    pub position: P,
    /// The position in the tick before, for interpolation.
    pub last_position: P,
    pub origin: O,
    pub scale: S,
}

impl<P: Copy, O: Copy, S: Copy> TransformComponent<P, O, S> {
    /// A transform at rest at `position`.
    pub fn new(position: P, origin: O, scale: S) -> (transform: Self)
        ensures
            transform.position == position,
            transform.last_position == position,
            transform.origin == origin,
            transform.scale == scale,
    {
        TransformComponent { position, last_position: position, origin, scale }
    }

    /// Moves to `position` and keeps the place it leaves as the last one.
    pub fn advance(&mut self, position: P)
        ensures
            final(self).position == position,
            final(self).last_position == old(self).position,
            final(self).origin == old(self).origin,
            final(self).scale == old(self).scale,
    {
        self.last_position = self.position;
        self.position = position;
    }
}

} // verus!
