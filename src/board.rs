use vstd::prelude::*;

use crate::block::{in_bounds, Position};
use crate::{HEIGHT, WIDTH};

verus! {

/// Row-major index of cell (x, y) in the flat occupancy table.
pub open spec fn cell_index(x: int, y: int) -> int {
    y * WIDTH + x
}

/// The occupancy table: `true` where a landed piece fills the cell.
pub struct GameBoard {
    pub cells: Vec<bool>,
}

impl GameBoard {
    /// The table holds exactly one entry per cell of the playfield.
    pub open spec fn wf(&self) -> bool {
        self.cells@.len() == WIDTH * HEIGHT
    }

    /// Whether cell `p` is occupied.
    pub open spec fn occupied(&self, p: Position) -> bool {
        self.cells@[cell_index(p.x as int, p.y as int)]
    }

    /// An empty playfield.
    pub fn new() -> (r: GameBoard)
        ensures
            r.wf(),
            forall|i: int| 0 <= i < r.cells@.len() ==> !r.cells@[i],
    {
        let n: usize = (WIDTH * HEIGHT) as usize;
        let mut cells: Vec<bool> = Vec::new();
        let mut i: usize = 0;
        while i < n
            invariant
                i <= n,
                n == WIDTH * HEIGHT,
                cells@.len() == i,
                forall|j: int| 0 <= j < i ==> !cells@[j],
            decreases n - i,
        {
            cells.push(false);
            i = i + 1;
        }
        GameBoard { cells }
    }

    /// Whether cell `p` is occupied.
    pub fn is_occupied(&self, p: Position) -> (r: bool)
        requires
            self.wf(),
            in_bounds(p),
        ensures
            r == self.occupied(p),
    {
        self.cells[(p.y as usize) * (WIDTH as usize) + (p.x as usize)]
    }

    /// Marks cell `p` occupied; no other cell changes.
    pub fn occupy(&mut self, p: Position)
        requires
            old(self).wf(),
            in_bounds(p),
        ensures
            final(self).wf(),
            final(self).cells@ == old(self).cells@.update(cell_index(p.x as int, p.y as int), true),
    {
        self.cells.set((p.y as usize) * (WIDTH as usize) + (p.x as usize), true);
    }
}

} // verus!
