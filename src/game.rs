use vstd::prelude::*;
use crate::asteroid::Asteroid;
use crate::command::Command;
use crate::direction::Direction;
use crate::point::Point;
use crate::ship::{Bullet, Ship};

verus! {

/// Longest tick, in milliseconds, reached at speed zero.
pub const MAX_INTERVAL: u16 = 700;

/// Shortest tick, in milliseconds, reached at the top speed.
pub const MIN_INTERVAL: u16 = 200;

/// Top speed.
pub const MAX_SPEED: u16 = 20;

/// Speed of a new game.
pub const START_SPEED: u16 = 10;

/// Lives of a new game.
pub const START_LIVES: u16 = 3;

/// A bullet in flight reached the top row and cannot climb any further.
#[derive(Debug, Clone, Copy, PartialEq, Eq, Structural)]
pub struct BulletOutOfRange;

/// The state of a game session: the board, the ship and the session's counters.
#[derive(Debug)]
pub struct Game {
    pub width: u16,
    pub height: u16,
    /// Terminal size (columns, rows) to put back when the session ends.
    pub original_terminal_size: (u16, u16),
    pub ship: Ship,
    pub speed: u16,
    pub score: u16,
    pub lives: u16,
}

/// Milliseconds of a tick at the given speed.
pub open spec fn interval_at(speed: int) -> int {
    MIN_INTERVAL + ((MAX_INTERVAL - MIN_INTERVAL) / (MAX_SPEED as int)) * (MAX_SPEED - speed)
}

/// A command that the session can carry out: a move is to the left or the right.
pub open spec fn command_ok(command: Command) -> bool {
    command matches Command::Move(d) ==> d.is_horizontal()
}

/// Relies on rand::Rng::gen_range (rand 0.7) on the thread-local generator:
/// a value drawn from `[low, high)`; it panics when `low >= high`.
#[verifier::external_body]
fn random_below(high: u16) -> (r: u16)
    requires
        0 < high,
    ensures
        r < high,
{
    rand::Rng::gen_range(&mut rand::thread_rng(), 0u16, high)
}

impl Game {
    /// The board has two columns or more, and the ship stands inside it on the bottom row.
    pub open spec fn wf(self) -> bool {
        &&& self.width >= 2
        &&& self.height >= 1
        &&& self.ship.point.x < self.width
        &&& self.ship.point.y == self.height - 1
        &&& self.speed <= MAX_SPEED
    }

    /// Whether a move towards `d` slides the ship: it must stay strictly inside
    /// the walls, or stand at a wall and move away from it.
    pub open spec fn may_slide(self, d: Direction) -> bool {
        let x = self.ship.point.x;
        ||| (0 < x && x < self.width - 1)
        ||| (x == 0 && d == Direction::Right)
        ||| (x == self.width - 1 && d == Direction::Left)
    }

    /// The ship after a move towards `d`.
    pub open spec fn ship_after_move(self, d: Direction) -> Ship {
        Ship {
            point: if self.may_slide(d) {
                self.ship.point.transformed(d)
            } else {
                self.ship.point
            },
            shooting: self.ship.shooting,
            direction: d,
        }
    }

    /// The ship after `command`.
    pub open spec fn ship_after(self, command: Command) -> Ship {
        match command {
            Command::Quit => self.ship,
            Command::Move(d) => self.ship_after_move(d),
            Command::Shoot => Ship { shooting: true, ..self.ship },
        }
    }

    /// A new session on a board of `width` columns and `height` rows, with the
    /// ship in the bottom left corner.
    pub fn new(width: u16, height: u16, original_terminal_size: (u16, u16)) -> (r: Self)
        requires
            width >= 2,
            height >= 1,
        ensures
            r.wf(),
            r.width == width,
            r.height == height,
            r.original_terminal_size == original_terminal_size,
            r.ship.point == (Point { x: 0, y: (height - 1) as u16 }),
            !r.ship.shooting,
            r.ship.direction == Direction::Nothing,
            r.speed == START_SPEED,
            r.score == 0,
            r.lives == START_LIVES,
    {
        Self {
            width,
            height,
            original_terminal_size,
            ship: Ship::new(0, height - 1),
            speed: START_SPEED,
            score: 0,
            lives: START_LIVES,
        }
    }

    /// Milliseconds that one tick lasts at the session's speed.
    pub fn calculate_interval(&self) -> (r: u64)
        requires
            self.speed <= MAX_SPEED,
        ensures
            r == interval_at(self.speed as int),
    {
        let speed: u16 = MAX_SPEED - self.speed;
        assert(25 * speed <= 500) by (nonlinear_arith)
            requires
                speed <= 20,
        ;
        (MIN_INTERVAL + (((MAX_INTERVAL - MIN_INTERVAL) / MAX_SPEED) * speed)) as u64
    }

    /// Carries out one command; returns whether the session is to end.
    pub fn handle_command(&mut self, command: Command) -> (quit: bool)
        requires
            old(self).wf(),
            command_ok(command),
        ensures
            final(self).wf(),
            quit == (command == Command::Quit),
            final(self).ship == old(self).ship_after(command),
            final(self).width == old(self).width,
            final(self).height == old(self).height,
            final(self).original_terminal_size == old(self).original_terminal_size,
            final(self).speed == old(self).speed,
            final(self).score == old(self).score,
            final(self).lives == old(self).lives,
    {
        match command {
            Command::Quit => true,
            Command::Move(towards) => {
                self.ship.set_direction(towards);
                if self.ship.point.x > 0 && self.ship.point.x < self.width - 1 {
                    self.ship.slide();
                } else if self.ship.point.x == 0 && self.ship.direction == Direction::Right
                    || self.ship.point.x == self.width - 1 && self.ship.direction
                        == Direction::Left {
                    self.ship.slide();
                }
                false
            },
            Command::Shoot => {
                self.ship.shooting = true;
                false
            },
        }
    }

    /// The asteroid that opens a session: on the top row, in a random column.
    pub fn spawn_asteroid(&self) -> (r: Asteroid)
        requires
            self.wf(),
        ensures
            r.point.y == 0,
            r.point.x < self.width,
            r.direction == Direction::Down,
    {
        Asteroid::new(random_below(self.width), 0)
    }

    /// The bullet that opens a session: below the ship, just under the bottom row.
    pub fn spawn_bullet(&self) -> (r: Bullet)
        ensures
            r.point == (Point { x: self.ship.point.x, y: self.height }),
            r.direction == Direction::Up,
    {
        Bullet::new(self.ship.point.x, self.height)
    }

    /// Lets the asteroid fall one row; one that falls off the bottom comes
    /// back on the top row, in a random column.
    pub fn advance_asteroid(&self, asteroid: &mut Asteroid)
        requires
            self.wf(),
            old(asteroid).direction == Direction::Down,
            old(asteroid).point.y < self.height,
        ensures
            final(asteroid).direction == Direction::Down,
            final(asteroid).point.y < self.height,
            old(asteroid).point.y + 1 == self.height ==> final(asteroid).point.y == 0
                && final(asteroid).point.x < self.width,
            old(asteroid).point.y + 1 < self.height ==> final(asteroid).point
                == old(asteroid).point.transformed(Direction::Down),
    {
        asteroid.fall();
        if asteroid.point.y == self.height {
            asteroid.point.x = random_below(self.width);
            asteroid.point.y = 0;
        }
    }

    /// The bullet's move at the start of a tick: before the first shot it
    /// follows the ship's column; once the ship has fired it climbs one row.
    /// A bullet that would climb above the top row is left as it is, with an error.
    pub fn carry_bullet(&self, bullet: &mut Bullet) -> (r: Result<(), BulletOutOfRange>)
        ensures
            final(bullet).direction == old(bullet).direction,
            !self.ship.shooting ==> r is Ok && final(bullet).point == (Point {
                x: self.ship.point.x,
                ..old(bullet).point
            }),
            self.ship.shooting ==> Self::climbed(*old(bullet), *final(bullet), r),
    {
        if self.ship.shooting {
            Self::climb(bullet)
        } else {
            bullet.point.x = self.ship.point.x;
            Ok(())
        }
    }

    /// The bullet's move at the end of a tick: once the ship has fired it
    /// climbs one more row. A bullet that would climb above the top row is
    /// left as it is, with an error.
    pub fn fire_bullet(&self, bullet: &mut Bullet) -> (r: Result<(), BulletOutOfRange>)
        ensures
            !self.ship.shooting ==> r is Ok && *final(bullet) == *old(bullet),
            self.ship.shooting ==> Self::climbed(*old(bullet), *final(bullet), r),
    {
        if self.ship.shooting {
            Self::climb(bullet)
        } else {
            Ok(())
        }
    }

    /// `after` is `before` moved one step its way, or, where that step leaves
    /// the coordinate range, `before` itself with an error.
    pub open spec fn climbed(before: Bullet, after: Bullet, r: Result<(), BulletOutOfRange>) -> bool {
        &&& after.direction == before.direction
        &&& (r is Ok <==> before.point.can_transform(before.direction))
        &&& r is Ok ==> after.point == before.point.transformed(before.direction)
        &&& r is Err ==> after == before
    }

    fn climb(bullet: &mut Bullet) -> (r: Result<(), BulletOutOfRange>)
        ensures
            Self::climbed(*old(bullet), *final(bullet), r),
    {
        let p = bullet.point;
        let fits = match bullet.direction {
            Direction::Up => p.y > 0,
            Direction::Down => p.y < u16::MAX,
            Direction::Left => p.x > 0,
            Direction::Right => p.x < u16::MAX,
            Direction::Nothing => true,
        };
        if fits {
            bullet.shoot();
            Ok(())
        } else {
            Err(BulletOutOfRange)
        }
    }

    /// Size (columns, rows) of a window that holds the board and its border,
    /// if it can be expressed.
    pub fn window_size(&self) -> (r: Option<(u16, u16)>)
        ensures
            self.width + 3 <= u16::MAX && self.height + 3 <= u16::MAX ==> r == Some(
                ((self.width + 3) as u16, (self.height + 3) as u16),
            ),
            !(self.width + 3 <= u16::MAX && self.height + 3 <= u16::MAX) ==> r is None,
    {
        if self.width <= u16::MAX - 3 && self.height <= u16::MAX - 3 {
            Some((self.width + 3, self.height + 3))
        } else {
            None
        }
    }
}

/// At the left wall a move to the left leaves the ship where it is, and a
/// move to the right takes it one column right.
pub proof fn lemma_left_wall_clamp(g: Game)
    requires
        g.wf(),
        g.ship.point.x == 0,
    ensures
        g.ship_after(Command::Move(Direction::Left)).point == g.ship.point,
        g.ship_after(Command::Move(Direction::Right)).point.x == 1,
        g.ship_after(Command::Move(Direction::Right)).point.y == g.ship.point.y,
{
}

/// At the right wall a move to the right leaves the ship where it is, and a
/// move to the left takes it one column left.
pub proof fn lemma_right_wall_clamp(g: Game)
    requires
        g.wf(),
        g.ship.point.x == g.width - 1,
    ensures
        g.ship_after(Command::Move(Direction::Right)).point == g.ship.point,
        g.ship_after(Command::Move(Direction::Left)).point.x == g.width - 2,
        g.ship_after(Command::Move(Direction::Left)).point.y == g.ship.point.y,
{
}

/// Whatever commands come, the ship stays on the board: a session that is
/// well formed stays so after any command it can carry out.
pub proof fn lemma_command_keeps_ship_on_board(g: Game, command: Command)
    requires
        g.wf(),
        command_ok(command),
    ensures
        (Game { ship: g.ship_after(command), ..g }).wf(),
{
}

/// The terminal cell where a board cell is drawn: one right and one down, past the border.
pub fn screen_cell(p: Point) -> (r: (u16, u16))
    requires
        p.x < u16::MAX,
        p.y < u16::MAX,
    ensures
        r == ((p.x + 1) as u16, (p.y + 1) as u16),
{
    (p.x + 1, p.y + 1)
}

} // verus!
