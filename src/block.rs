use vstd::prelude::*;

use crate::{HEIGHT, WIDTH};

verus! {

/// A cell coordinate: column `x`, row `y`, row 0 being the floor.
#[derive(Clone, Copy, Debug, PartialEq, Eq, Structural)]
pub struct Position {
    pub x: i32,
    pub y: i32,
}

/// A display color.
#[derive(Clone, Copy, Debug, PartialEq, Eq, Structural)]
pub struct Rgb {
    pub r: u8,
    pub g: u8,
    pub b: u8,
}

/// Whether a cell still falls or has landed for good.
#[derive(Clone, Copy, Debug, PartialEq, Eq, Structural)]
pub enum Tag {
    Free,
    Fixed,
}

/// One cell of a piece.
#[derive(Clone, Copy, Debug, PartialEq, Eq, Structural)]
pub struct Block {
    pub pos: Position,
    pub color: Rgb,
    pub tag: Tag,
}

/// The coordinate lies on the playfield.
pub open spec fn in_bounds(p: Position) -> bool {
    0 <= p.x < WIDTH && 0 <= p.y < HEIGHT
}

impl Position {
    /// The coordinate (x, y).
    pub fn new(x: i32, y: i32) -> (r: Position)
        ensures
            r == (Position { x, y }),
    {
        Position { x, y }
    }

    /// Tests whether the coordinate lies on the playfield.
    pub fn is_in_bounds(&self) -> (r: bool)
        ensures
            r == in_bounds(*self),
    {
        0 <= self.x && self.x < WIDTH && 0 <= self.y && self.y < HEIGHT
    }
}

impl Rgb {
    /// The color with these red, green and blue components.
    pub fn new(r: u8, g: u8, b: u8) -> (c: Rgb)
        ensures
            c == (Rgb { r, g, b }),
    {
        Rgb { r, g, b }
    }
}

impl Block {
    /// A falling cell at `pos` with color `color`.
    pub fn free(pos: Position, color: Rgb) -> (b: Block)
        ensures
            b == (Block { pos, color, tag: Tag::Free }),
    {
        Block { pos, color, tag: Tag::Free }
    }

    /// Whether the cell is still falling.
    pub fn is_free(&self) -> (r: bool)
        ensures
            r == (self.tag == Tag::Free),
    {
        self.tag == Tag::Free
    }
}

} // verus!
