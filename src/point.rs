use vstd::prelude::*;
use crate::direction::Direction;

verus! {

/// A cell of the grid; `y` grows downwards.
#[derive(Debug, Clone, Copy, PartialEq, Eq, Hash, Structural)]
pub struct Point {
    pub x: u16,
    pub y: u16,
}

/// A coordinate moved by a signed offset stays within the range of `u16`.
pub open spec fn offset_fits(value: int, by: int) -> bool {
    0 <= value + by <= u16::MAX
}

impl Point {
    /// `self` can take one step towards `d` without leaving the coordinate range.
    pub open spec fn can_transform(self, d: Direction) -> bool {
        offset_fits(self.x as int, d.dx()) && offset_fits(self.y as int, d.dy())
    }

    /// The cell one step from `self` towards `d`.
    pub open spec fn transformed(self, d: Direction) -> Point
        recommends
            self.can_transform(d),
    {
        Point { x: (self.x + d.dx()) as u16, y: (self.y + d.dy()) as u16 }
    }

    pub fn new(x: u16, y: u16) -> (r: Self)
        ensures
            r == (Point { x, y }),
    {
        Self { x, y }
    }

    /// The cell one step from `self` towards `direction`.
    pub fn transform(&self, direction: Direction) -> (r: Self)
        requires
            self.can_transform(direction),
        ensures
            r == self.transformed(direction),
            r.x == self.x + direction.dx(),
            r.y == self.y + direction.dy(),
    {
        let transformation: (i16, i16) = match direction {
            Direction::Up => (0, -1),
            Direction::Down => (0, 1),
            Direction::Left => (-1, 0),
            Direction::Right => (1, 0),
            Direction::Nothing => (0, 0),
        };
        Self::new(
            Self::transform_value(self.x, transformation.0),
            Self::transform_value(self.y, transformation.1),
        )
    }

    /// `value` moved by `by`; the result must not leave the range of `u16`.
    pub fn transform_value(value: u16, by: i16) -> (r: u16)
        requires
            offset_fits(value as int, by as int),
        ensures
            r == value + by,
    {
        if by < 0 {
            let magnitude: u16 = (0i32 - by as i32) as u16;
            value - magnitude
        } else {
            value + by as u16
        }
    }
}

/// A step in any direction but `Nothing` moves exactly one coordinate by one
/// and leaves the other as it was.
pub proof fn lemma_step_moves_one_axis(p: Point, d: Direction)
    requires
        d != Direction::Nothing,
        p.can_transform(d),
    ensures
        ({
            let q = p.transformed(d);
            ||| (q.y == p.y && (q.x == p.x + 1 || q.x == p.x - 1) && d.is_horizontal())
            ||| (q.x == p.x && (q.y == p.y + 1 || q.y == p.y - 1) && !d.is_horizontal())
        }),
{
}

/// Standing still leaves every point where it is.
pub proof fn lemma_nothing_is_identity(p: Point)
    ensures
        p.can_transform(Direction::Nothing),
        p.transformed(Direction::Nothing) == p,
{
}

} // verus!
