use vstd::prelude::*;
use crate::direction::Direction;
use crate::point::Point;

verus! {

/// The player's ship: where it stands, where it faces, and whether it has fired.
#[derive(Debug)]
pub struct Ship {
    pub point: Point,
    pub shooting: bool,
    pub direction: Direction,
}

impl Ship {
    pub fn new(x: u16, y: u16) -> (r: Self)
        ensures
            r.point == (Point { x, y }),
            !r.shooting,
            r.direction == Direction::Nothing,
    {
        Self { point: Point::new(x, y), shooting: false, direction: Direction::Nothing }
    }

    pub fn set_direction(&mut self, direction: Direction)
        ensures
            final(self).direction == direction,
            final(self).point == old(self).point,
            final(self).shooting == old(self).shooting,
    {
        self.direction = direction;
    }

    pub fn get_ship_point(&self) -> (r: Point)
        ensures
            r == self.point,
    {
        self.point
    }

    pub fn get_direction(&self) -> (r: Direction)
        ensures
            r == self.direction,
    {
        self.direction
    }

    /// Moves the ship one cell towards the way it faces.
    pub fn slide(&mut self)
        requires
            old(self).point.can_transform(old(self).direction),
        ensures
            final(self).point == old(self).point.transformed(old(self).direction),
            final(self).direction == old(self).direction,
            final(self).shooting == old(self).shooting,
    {
        self.point = self.point.transform(self.direction);
    }
}

/// A bullet; it always flies up.
#[derive(Debug)]
pub struct Bullet {
    pub point: Point,
    pub direction: Direction,
}

impl Bullet {
    pub fn new(x: u16, y: u16) -> (r: Self)
        ensures
            r.point == (Point { x, y }),
            r.direction == Direction::Up,
    {
        Self { point: Point::new(x, y), direction: Direction::Up }
    }

    /// Moves the bullet one cell the way it flies.
    pub fn shoot(&mut self)
        requires
            old(self).point.can_transform(old(self).direction),
        ensures
            final(self).point == old(self).point.transformed(old(self).direction),
            final(self).direction == old(self).direction,
    {
        self.point = self.point.transform(self.direction);
    }
}

} // verus!
