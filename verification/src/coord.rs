//! Discrete cell coordinates and the four compass directions.

use vstd::prelude::*;

verus! {

/// A discrete cell coordinate, used for the pointer position and for
/// positions given in whole cells.
#[derive(Clone, Copy, PartialEq, Eq, Structural, Debug)]
pub struct Coord {
    pub x: i32,
    pub y: i32,
}

impl Coord {
    pub fn new(x: i32, y: i32) -> (c: Coord)
        ensures
            c == (Coord { x, y }),
    {
        Coord { x, y }
    }
}

/// A compass direction. The y axis points down, as on a terminal screen.
#[derive(Clone, Copy, PartialEq, Eq, Structural, Debug)]
pub enum Direction {
    Up,
    Down,
    Left,
    Right,
}

/// The unit cell step of a direction.
pub open spec fn spec_direction_coord(d: Direction) -> Coord {
    match d {
        Direction::Up => Coord { x: 0, y: (-1) as i32 },
        Direction::Down => Coord { x: 0, y: 1 },
        Direction::Left => Coord { x: (-1) as i32, y: 0 },
        Direction::Right => Coord { x: 1, y: 0 },
    }
}

impl Direction {
    /// The unit cell step of this direction.
    pub fn as_coord(self) -> (c: Coord)
        ensures
            c == spec_direction_coord(self),
    {
        match self {
            Direction::Up => Coord { x: 0, y: -1 },
            Direction::Down => Coord { x: 0, y: 1 },
            Direction::Left => Coord { x: -1, y: 0 },
            Direction::Right => Coord { x: 1, y: 0 },
        }
    }
}

/// Conversion into a direction, for input types that may name one.
pub trait AsDirection {
    /// The direction this value stands for, if any.
    spec fn direction_spec(&self) -> Option<Direction>;

    fn as_direction(&self) -> (d: Option<Direction>)
        ensures
            d == self.direction_spec(),
    ;
}

} // verus!
