use vstd::prelude::*;

use crate::block::{in_bounds, Block, Position, Rgb, Tag};
use crate::board::{cell_index, GameBoard};
use crate::catalog::{
    block_patterns, catalog, colors, next_block, next_color, palette, pick_block, pick_color, Pattern,
};
use crate::{HEIGHT, WIDTH};

verus! {

/// Column of the pivot cell of a new piece: the middle of the playfield.
pub const ORIGIN_X: i32 = 5;

/// Row of the pivot cell of a new piece.
pub const ORIGIN_Y: i32 = HEIGHT - 4;

/// Where a new piece's cell with offset `o` starts.
pub open spec fn spawn_pos(o: (i32, i32)) -> Position {
    Position { x: (ORIGIN_X + o.0) as i32, y: (ORIGIN_Y + o.1) as i32 }
}

/// Every offset of the pattern places its cell on the playfield.
pub open spec fn fits(p: Seq<(i32, i32)>) -> bool {
    &&& p.len() == 4
    &&& forall|k: int|
        0 <= k < 4 ==> 0 <= ORIGIN_X + #[trigger] p[k].0 < WIDTH && 0 <= ORIGIN_Y + p[k].1 < HEIGHT
}

/// The falling cells that a piece of pattern `p` and color `color` starts as.
pub open spec fn spawned(p: Seq<(i32, i32)>, color: Rgb) -> Seq<Block> {
    p.map_values(|o: (i32, i32)| Block { pos: spawn_pos(o), color, tag: Tag::Free })
}

/// The landing test for one cell: it lies on the playfield, and stands on the
/// floor or on an occupied cell. A cell off the playfield never lands.
pub open spec fn cannot_fall_at(board: GameBoard, p: Position) -> bool {
    in_bounds(p) && (p.y == 0 || board.occupied(Position { x: p.x, y: (p.y - 1) as i32 }))
}

/// The cell one row lower.
pub open spec fn lowered(b: Block) -> Block {
    Block { pos: Position { x: b.pos.x, y: (b.pos.y - 1) as i32 }, color: b.color, tag: b.tag }
}

/// The cell, landed.
pub open spec fn fixed(b: Block) -> Block {
    Block { pos: b.pos, color: b.color, tag: Tag::Fixed }
}

/// Some falling cell of `blocks` stands at `p`.
pub open spec fn free_at(blocks: Seq<Block>, p: Position) -> bool {
    exists|j: int| 0 <= j < blocks.len() && blocks[j].tag == Tag::Free && #[trigger] blocks[j].pos == p
}

/// No two falling cells share a coordinate.
pub open spec fn free_distinct(blocks: Seq<Block>) -> bool {
    forall|i: int, j: int|
        0 <= i < blocks.len() && 0 <= j < blocks.len() && i != j && blocks[i].tag == Tag::Free && blocks[j].tag
            == Tag::Free ==> #[trigger] blocks[i].pos != #[trigger] blocks[j].pos
}

/// The whole simulation: grid, cells, tables and the pending spawn request.
pub struct Game {
    pub board: GameBoard,
    pub blocks: Vec<Block>,
    pub block_patterns: Vec<Pattern>,
    pub colors: Vec<Rgb>,
    pub spawn_requested: bool,
}

impl Game {
    /// The grid has its size, the tables are non-empty, every pattern starts
    /// on the playfield, and every cell lies on the playfield.
    pub open spec fn wf(&self) -> bool {
        &&& self.board.wf()
        &&& self.block_patterns@.len() > 0
        &&& forall|i: int| 0 <= i < self.block_patterns@.len() ==> fits(#[trigger] self.block_patterns@[i]@)
        &&& self.colors@.len() > 0
        &&& forall|i: int| 0 <= i < self.blocks@.len() ==> in_bounds(#[trigger] self.blocks@[i].pos)
    }

    /// Some falling cell meets the landing test.
    pub open spec fn lands(&self) -> bool {
        exists|i: int|
            0 <= i < self.blocks@.len() && self.blocks@[i].tag == Tag::Free
                && cannot_fall_at(self.board, #[trigger] self.blocks@[i].pos)
    }

    /// An empty playfield with the standard shapes and palette, and a spawn
    /// request pending so that the first piece appears.
    pub fn new() -> (r: Game)
        ensures
            r.wf(),
            forall|i: int| 0 <= i < r.board.cells@.len() ==> !r.board.cells@[i],
            r.blocks@.len() == 0,
            r.block_patterns@.len() == catalog().len(),
            forall|i: int| 0 <= i < r.block_patterns@.len() ==> r.block_patterns@[i]@ == #[trigger] catalog()[i],
            r.colors@ == palette(),
            r.spawn_requested,
    {
        let block_patterns = block_patterns();
        assert forall|i: int| 0 <= i < block_patterns@.len() implies fits(#[trigger] block_patterns@[i]@) by {
            assert(block_patterns@[i]@ == catalog()[i]);
        }
        Game {
            board: GameBoard::new(),
            blocks: Vec::new(),
            block_patterns,
            colors: colors(),
            spawn_requested: true,
        }
    }

    /// Whether some falling cell meets the landing test.
    pub fn cannot_fall(&self) -> (r: bool)
        requires
            self.board.wf(),
        ensures
            r == self.lands(),
    {
        let mut i: usize = 0;
        while i < self.blocks.len()
            invariant
                self.board.wf(),
                i <= self.blocks@.len(),
                forall|j: int|
                    0 <= j < i ==> !(self.blocks@[j].tag == Tag::Free && cannot_fall_at(
                        self.board,
                        #[trigger] self.blocks@[j].pos,
                    )),
            decreases self.blocks@.len() - i,
        {
            let b = self.blocks[i];
            if b.is_free() && b.pos.is_in_bounds() {
                if b.pos.y == 0 {
                    return true;
                }
                if self.board.is_occupied(Position::new(b.pos.x, b.pos.y - 1)) {
                    return true;
                }
            }
            i = i + 1;
        }
        false
    }

    /// Lands every falling cell: each becomes fixed where it stands, and its
    /// coordinate is marked occupied. Nothing else changes.
    pub fn freeze(&mut self)
        requires
            old(self).wf(),
        ensures
            final(self).wf(),
            final(self).blocks@.len() == old(self).blocks@.len(),
            forall|i: int| 0 <= i < old(self).blocks@.len() ==> final(self).blocks@[i] == fixed(#[trigger] old(self).blocks@[i]),
            forall|p: Position| in_bounds(p) ==> (#[trigger] final(self).board.occupied(p) == (old(self).board.occupied(p) || free_at(old(self).blocks@, p))),
            final(self).block_patterns == old(self).block_patterns,
            final(self).colors == old(self).colors,
            final(self).spawn_requested == old(self).spawn_requested,
    {
        let ghost start = *self;
        let mut i: usize = 0;
        while i < self.blocks.len()
            invariant
                self.wf(),
                i <= self.blocks@.len(),
                self.blocks@.len() == start.blocks@.len(),
                forall|j: int| 0 <= j < i ==> self.blocks@[j] == fixed(#[trigger] start.blocks@[j]),
                forall|j: int| i <= j < self.blocks@.len() ==> self.blocks@[j] == #[trigger] start.blocks@[j],
                forall|p: Position| in_bounds(p) ==> (#[trigger] self.board.occupied(p) == (start.board.occupied(p)
                    || free_at(start.blocks@.take(i as int), p))),
                self.block_patterns == start.block_patterns,
                self.colors == start.colors,
                self.spawn_requested == start.spawn_requested,
            decreases self.blocks@.len() - i,
        {
            let b = self.blocks[i];
            let ghost before = self.board;
            if b.is_free() {
                self.board.occupy(b.pos);
                assert forall|p: Position| in_bounds(p) implies #[trigger] self.board.occupied(p) == (before.occupied(p) || p == b.pos) by {
                    if cell_index(p.x as int, p.y as int) == cell_index(b.pos.x as int, b.pos.y as int) {
                        assert(p == b.pos);
                    }
                }
            }
            self.blocks.set(i, Block { pos: b.pos, color: b.color, tag: Tag::Fixed });
            assert forall|p: Position| in_bounds(p) implies #[trigger] self.board.occupied(p) == (start.board.occupied(p)
                || free_at(start.blocks@.take(i + 1), p)) by {
                let t = start.blocks@.take(i + 1);
                if free_at(start.blocks@.take(i as int), p) {
                    let j = choose|j: int| 0 <= j < i && start.blocks@.take(i as int)[j].tag == Tag::Free && #[trigger] start.blocks@.take(i as int)[j].pos == p;
                    assert(t[j] == start.blocks@.take(i as int)[j]);
                }
                if b.tag == Tag::Free && p == b.pos {
                    assert(t[i as int] == b);
                }
                if free_at(t, p) {
                    let j = choose|j: int| 0 <= j < i + 1 && t[j].tag == Tag::Free && #[trigger] t[j].pos == p;
                    if j < i {
                        assert(start.blocks@.take(i as int)[j] == t[j]);
                    }
                }
            }
            i = i + 1;
        }
        assert(start.blocks@.take(i as int) =~= start.blocks@);
    }

    /// Moves every falling cell one row down; landed cells stay.
    pub fn descend(&mut self)
        requires
            old(self).wf(),
            !old(self).lands(),
        ensures
            final(self).wf(),
            final(self).blocks@.len() == old(self).blocks@.len(),
            forall|i: int| 0 <= i < old(self).blocks@.len() ==> final(self).blocks@[i] == if (#[trigger] old(self).blocks@[i]).tag == Tag::Free {
                lowered(old(self).blocks@[i])
            } else {
                old(self).blocks@[i]
            },
            final(self).board == old(self).board,
            final(self).block_patterns == old(self).block_patterns,
            final(self).colors == old(self).colors,
            final(self).spawn_requested == old(self).spawn_requested,
    {
        let ghost start = *self;
        let mut i: usize = 0;
        while i < self.blocks.len()
            invariant
                self.wf(),
                !start.lands(),
                i <= self.blocks@.len(),
                self.blocks@.len() == start.blocks@.len(),
                forall|j: int| 0 <= j < i ==> self.blocks@[j] == if (#[trigger] start.blocks@[j]).tag == Tag::Free {
                    lowered(start.blocks@[j])
                } else {
                    start.blocks@[j]
                },
                forall|j: int| i <= j < self.blocks@.len() ==> self.blocks@[j] == #[trigger] start.blocks@[j],
                self.board == start.board,
                self.block_patterns == start.block_patterns,
                self.colors == start.colors,
                self.spawn_requested == start.spawn_requested,
            decreases self.blocks@.len() - i,
        {
            let b = self.blocks[i];
            if b.is_free() {
                assert(!cannot_fall_at(start.board, start.blocks@[i as int].pos));
                self.blocks.set(i, Block { pos: Position::new(b.pos.x, b.pos.y - 1), color: b.color, tag: b.tag });
            }
            i = i + 1;
        }
    }
    /// One gravity step. On a cycle where the clock has not finished nothing
    /// changes. Otherwise, if some falling cell meets the landing test, all
    /// falling cells land together and a spawn request is raised; else every
    /// falling cell moves one row down.
    pub fn block_fall(&mut self, timer_finished: bool)
        requires
            old(self).wf(),
        ensures
            final(self).wf(),
            !timer_finished ==> *final(self) == *old(self),
            timer_finished ==> final(self).block_patterns == old(self).block_patterns && final(self).colors == old(self).colors,
            timer_finished ==> final(self).blocks@.len() == old(self).blocks@.len(),
            timer_finished && old(self).lands() ==> {
                &&& forall|i: int| 0 <= i < old(self).blocks@.len() ==> final(self).blocks@[i] == fixed(#[trigger] old(self).blocks@[i])
                &&& forall|p: Position| in_bounds(p) ==> (#[trigger] final(self).board.occupied(p) == (old(self).board.occupied(p) || free_at(old(self).blocks@, p)))
                &&& final(self).spawn_requested
            },
            timer_finished && !old(self).lands() ==> {
                &&& forall|i: int| 0 <= i < old(self).blocks@.len() ==> final(self).blocks@[i] == if (#[trigger] old(self).blocks@[i]).tag == Tag::Free {
                    lowered(old(self).blocks@[i])
                } else {
                    old(self).blocks@[i]
                }
                &&& final(self).board == old(self).board
                &&& final(self).spawn_requested == old(self).spawn_requested
                &&& forall|i: int|
                    0 <= i < final(self).blocks@.len() && final(self).blocks@[i].tag == Tag::Free
                        ==> !final(self).board.occupied(#[trigger] final(self).blocks@[i].pos)
                &&& free_distinct(old(self).blocks@) ==> free_distinct(final(self).blocks@)
            },
    {
        if !timer_finished {
            return;
        }
        if self.cannot_fall() {
            self.freeze();
            self.spawn_requested = true;
        } else {
            let ghost start = *self;
            self.descend();
            assert forall|i: int|
                0 <= i < self.blocks@.len() && self.blocks@[i].tag == Tag::Free implies !self.board.occupied(
                #[trigger] self.blocks@[i].pos,
            ) by {
                assert(self.blocks@[i] == lowered(start.blocks@[i]));
                assert(!cannot_fall_at(start.board, start.blocks@[i].pos));
            }
            assert(free_distinct(start.blocks@) ==> free_distinct(self.blocks@)) by {
                if free_distinct(start.blocks@) {
                    assert forall|i: int, j: int|
                        0 <= i < self.blocks@.len() && 0 <= j < self.blocks@.len() && i != j && self.blocks@[i].tag
                            == Tag::Free && self.blocks@[j].tag == Tag::Free implies #[trigger] self.blocks@[i].pos
                            != #[trigger] self.blocks@[j].pos by {
                        assert(self.blocks@[i] == lowered(start.blocks@[i]));
                        assert(self.blocks@[j] == lowered(start.blocks@[j]));
                        assert(start.blocks@[i].pos != start.blocks@[j].pos);
                    }
                }
            }
        }
    }

    /// Serves a pending spawn request with the pattern and color that the draws
    /// select: four falling cells at the origin plus the pattern's offsets, and
    /// the request cleared. Without a pending request nothing changes.
    pub fn spawn_block_with(&mut self, shape_draw: usize, color_draw: usize)
        requires
            old(self).wf(),
        ensures
            final(self).wf(),
            !old(self).spawn_requested ==> *final(self) == *old(self),
            old(self).spawn_requested ==> {
                &&& final(self).blocks@ == old(self).blocks@ + spawned(
                    old(self).block_patterns@[shape_draw as int % old(self).block_patterns@.len() as int]@,
                    old(self).colors@[color_draw as int % old(self).colors@.len() as int],
                )
                &&& !final(self).spawn_requested
                &&& final(self).board == old(self).board
                &&& final(self).block_patterns == old(self).block_patterns
                &&& final(self).colors == old(self).colors
            },
    {
        if !self.spawn_requested {
            return;
        }
        let pattern = pick_block(&self.block_patterns, shape_draw);
        let color = pick_color(&self.colors, color_draw);
        self.place(pattern, color);
    }

    /// Serves a pending spawn request with a random pattern and a random color
    /// of the tables. Without a pending request nothing changes.
    pub fn spawn_block(&mut self)
        requires
            old(self).wf(),
        ensures
            final(self).wf(),
            !old(self).spawn_requested ==> *final(self) == *old(self),
            old(self).spawn_requested ==> {
                &&& exists|k: int, c: int|
                    0 <= k < old(self).block_patterns@.len() && 0 <= c < old(self).colors@.len()
                    && final(self).blocks@ == old(self).blocks@ + spawned(
                        #[trigger] old(self).block_patterns@[k]@,
                        #[trigger] old(self).colors@[c],
                    )
                &&& !final(self).spawn_requested
                &&& final(self).board == old(self).board
                &&& final(self).block_patterns == old(self).block_patterns
                &&& final(self).colors == old(self).colors
            },
    {
        if !self.spawn_requested {
            return;
        }
        let pattern = next_block(&self.block_patterns);
        let color = next_color(&self.colors);
        let ghost k = choose|k: int| 0 <= k < self.block_patterns@.len() && self.block_patterns@[k] == pattern;
        let ghost c = choose|c: int| 0 <= c < self.colors@.len() && self.colors@[c] == color;
        self.place(pattern, color);
        assert(self.block_patterns@[k]@ == pattern@);
    }

    /// Adds the four falling cells of `pattern` in `color` and clears the
    /// spawn request.
    fn place(&mut self, pattern: Pattern, color: Rgb)
        requires
            old(self).wf(),
            fits(pattern@),
        ensures
            final(self).wf(),
            final(self).blocks@ == old(self).blocks@ + spawned(pattern@, color),
            !final(self).spawn_requested,
            final(self).board == old(self).board,
            final(self).block_patterns == old(self).block_patterns,
            final(self).colors == old(self).colors,
    {
        let ghost start = *self;
        let mut k: usize = 0;
        while k < 4
            invariant
                self.wf(),
                fits(pattern@),
                k <= 4,
                self.blocks@ == start.blocks@ + spawned(pattern@, color).take(k as int),
                self.board == start.board,
                self.block_patterns == start.block_patterns,
                self.colors == start.colors,
            decreases 4 - k,
        {
            let (dx, dy) = pattern[k];
            assert(pattern@[k as int] == (dx, dy));
            let b = Block::free(Position::new(ORIGIN_X + dx, ORIGIN_Y + dy), color);
            self.blocks.push(b);
            assert(spawned(pattern@, color).take(k + 1) =~= spawned(pattern@, color).take(k as int).push(b));
            k = k + 1;
        }
        assert(spawned(pattern@, color).take(4) =~= spawned(pattern@, color));
        self.spawn_requested = false;
    }
}

/// A piece of any shape of the catalog starts as exactly four falling cells,
/// each at the origin plus the matching offset of the shape, no two at the same
/// coordinate, all on the playfield.
pub proof fn lemma_spawned_piece(k: int, color: Rgb)
    requires
        0 <= k < catalog().len(),
    ensures
        spawned(catalog()[k], color).len() == 4,
        forall|i: int|
            0 <= i < 4 ==> #[trigger] spawned(catalog()[k], color)[i] == (Block {
                pos: Position { x: (ORIGIN_X + catalog()[k][i].0) as i32, y: (ORIGIN_Y + catalog()[k][i].1) as i32 },
                color,
                tag: Tag::Free,
            }),
        forall|i: int, j: int|
            0 <= i < 4 && 0 <= j < 4 && i != j ==> spawned(catalog()[k], color)[i].pos != spawned(catalog()[k], color)[j].pos,
        forall|i: int| 0 <= i < 4 ==> in_bounds(#[trigger] spawned(catalog()[k], color)[i].pos),
{
    let s = spawned(catalog()[k], color);
    assert(s.len() == 4);
    assert(s[0].pos != s[1].pos && s[0].pos != s[2].pos && s[0].pos != s[3].pos);
    assert(s[1].pos != s[2].pos && s[1].pos != s[3].pos && s[2].pos != s[3].pos);
}

} // verus!
