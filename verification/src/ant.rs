//! The ant: a position and one of four facing directions.

use vstd::prelude::*;

verus! {

/// A facing direction. The four follow each other clockwise:
/// up, right, down, left.
#[derive(Clone, Copy, Debug, PartialEq, Eq, Structural)]
pub enum Direction {
    Up,
    Right,
    Down,
    Left,
}

impl Direction {
    /// The place of the direction on the clockwise cycle, from 0 for up.
    pub open spec fn index(self) -> int {
        match self {
            Direction::Up => 0,
            Direction::Right => 1,
            Direction::Down => 2,
            Direction::Left => 3,
        }
    }

    /// The direction at place `i mod 4` of the cycle.
    pub open spec fn from_index(i: int) -> Direction {
        let k = i % 4;
        if k == 0 {
            Direction::Up
        } else if k == 1 {
            Direction::Right
        } else if k == 2 {
            Direction::Down
        } else {
            Direction::Left
        }
    }

    /// The next direction clockwise.
    pub open spec fn right(self) -> Direction {
        match self {
            Direction::Up => Direction::Right,
            Direction::Right => Direction::Down,
            Direction::Down => Direction::Left,
            Direction::Left => Direction::Up,
        }
    }

    /// The next direction counter-clockwise.
    pub open spec fn left(self) -> Direction {
        match self {
            Direction::Up => Direction::Left,
            Direction::Left => Direction::Down,
            Direction::Down => Direction::Right,
            Direction::Right => Direction::Up,
        }
    }

    /// The horizontal part of one step in this direction.
    pub open spec fn dx(self) -> int {
        match self {
            Direction::Up => 0,
            Direction::Right => 1,
            Direction::Down => 0,
            Direction::Left => -1,
        }
    }

    /// The vertical part of one step in this direction; rows grow downwards.
    pub open spec fn dy(self) -> int {
        match self {
            Direction::Up => -1,
            Direction::Right => 0,
            Direction::Down => 1,
            Direction::Left => 0,
        }
    }

    /// The direction at place `i mod 4` of the cycle.
    pub fn of_index(i: u64) -> (d: Direction)
        ensures
            d == Direction::from_index(i as int),
    {
        let k: u64 = i % 4;
        if k == 0 {
            Direction::Up
        } else if k == 1 {
            Direction::Right
        } else if k == 2 {
            Direction::Down
        } else {
            Direction::Left
        }
    }

    /// The next direction clockwise.
    pub fn turned_right(self) -> (d: Direction)
        ensures
            d == self.right(),
    {
        match self {
            Direction::Up => Direction::Right,
            Direction::Right => Direction::Down,
            Direction::Down => Direction::Left,
            Direction::Left => Direction::Up,
        }
    }

    /// The next direction counter-clockwise.
    pub fn turned_left(self) -> (d: Direction)
        ensures
            d == self.left(),
    {
        match self {
            Direction::Up => Direction::Left,
            Direction::Right => Direction::Up,
            Direction::Down => Direction::Right,
            Direction::Left => Direction::Down,
        }
    }

    /// One step in this direction, as `(dx, dy)`.
    pub fn delta(self) -> (d: (i64, i64))
        ensures
            d.0 == self.dx(),
            d.1 == self.dy(),
    {
        match self {
            Direction::Up => (0, -1),
            Direction::Right => (1, 0),
            Direction::Down => (0, 1),
            Direction::Left => (-1, 0),
        }
    }
}

/// The ant as mathematics sees it.
pub struct AntView {
    pub x: int,
    pub y: int,
    pub dir: Direction,
}

impl AntView {
    /// The ant after a quarter turn clockwise, on the same cell.
    pub open spec fn turn_right(self) -> AntView {
        AntView { dir: self.dir.right(), ..self }
    }

    /// The ant after a quarter turn counter-clockwise, on the same cell.
    pub open spec fn turn_left(self) -> AntView {
        AntView { dir: self.dir.left(), ..self }
    }
}

/// The mobile agent of the automaton.
#[derive(Clone, Copy, Debug, PartialEq, Eq, Structural)]
pub struct Ant {
    pub x: i64,
    pub y: i64,
    pub dir: Direction,
}

impl View for Ant {
    type V = AntView;

    open spec fn view(&self) -> AntView {
        AntView { x: self.x as int, y: self.y as int, dir: self.dir }
    }
}

impl Ant {
    /// Turns the ant a quarter turn counter-clockwise.
    pub fn turn_left(&mut self)
        ensures
            final(self)@ == old(self)@.turn_left(),
    {
        self.dir = self.dir.turned_left();
    }

    /// Turns the ant a quarter turn clockwise.
    pub fn turn_right(&mut self)
        ensures
            final(self)@ == old(self)@.turn_right(),
    {
        self.dir = self.dir.turned_right();
    }
}

/// The directions form a cycle of four: each quarter turn clockwise goes up,
/// right, down, left and up again, a quarter turn counter-clockwise goes the
/// other way round, and four turns to either side give the direction back.
/// On the places of the cycle a turn is arithmetic modulo four: one more
/// clockwise, one less counter-clockwise.
pub proof fn lemma_direction_cycle(d: Direction)
    ensures
        d.right().right().right().right() == d,
        d.left().left().left().left() == d,
        d.right().left() == d,
        d.left().right() == d,
        d.right().index() == (d.index() + 1) % 4,
        d.left().index() == (d.index() - 1 + 4) % 4,
        d.right() == Direction::from_index(d.index() + 1),
        d.left() == Direction::from_index(d.index() - 1 + 4),
        Direction::from_index(d.index()) == d,
        Direction::Up.right() == Direction::Right,
        Direction::Right.right() == Direction::Down,
        Direction::Down.right() == Direction::Left,
        Direction::Left.right() == Direction::Up,
        Direction::Up.left() == Direction::Left,
        Direction::Left.left() == Direction::Down,
        Direction::Down.left() == Direction::Right,
        Direction::Right.left() == Direction::Up,
{
}

/// Turning changes the direction only: four turns of the ant to either side
/// give the same ant back.
pub proof fn lemma_ant_turns(a: AntView)
    ensures
        a.turn_right().turn_right().turn_right().turn_right() == a,
        a.turn_left().turn_left().turn_left().turn_left() == a,
        a.turn_right().turn_left() == a,
        a.turn_left().turn_right() == a,
        a.turn_right().x == a.x && a.turn_right().y == a.y,
        a.turn_left().x == a.x && a.turn_left().y == a.y,
{
}

} // verus!
