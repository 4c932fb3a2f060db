use vstd::prelude::*;
use crate::direction::Direction;
use crate::point::Point;

verus! {

/// A falling asteroid; it always moves down.
#[derive(Debug)]
pub struct Asteroid {
    pub point: Point,
    pub direction: Direction,
}

impl Asteroid {
    pub fn new(x: u16, y: u16) -> (r: Self)
        ensures
            r.point == (Point { x, y }),
            r.direction == Direction::Down,
    {
        Self { point: Point::new(x, y), direction: Direction::Down }
    }

    /// Moves the asteroid one cell the way it travels.
    pub fn fall(&mut self)
        requires
            old(self).point.can_transform(old(self).direction),
        ensures
            final(self).point == old(self).point.transformed(old(self).direction),
            final(self).direction == old(self).direction,
    {
        self.point = self.point.transform(self.direction);
    }
}

} // verus!
