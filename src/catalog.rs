use vstd::prelude::*;

use rand::Rng;

use crate::block::Rgb;

verus! {

/// Four cell offsets (dx, dy) from a pivot cell: one shape's geometry.
pub type Pattern = [(i32, i32); 4];

/// An offset, as it stands in a pattern.
pub open spec fn off(dx: int, dy: int) -> (i32, i32) {
    (dx as i32, dy as i32)
}

/// The seven shapes: I, L, mirrored L, Z, mirrored Z, square, T.
pub open spec fn catalog() -> Seq<Seq<(i32, i32)>> {
    seq![
        seq![off(0, 0), off(0, -1), off(0, 1), off(0, 2)],
        seq![off(0, 0), off(0, -1), off(0, 1), off(-1, 1)],
        seq![off(0, 0), off(0, -1), off(0, 1), off(1, 1)],
        seq![off(0, 0), off(0, -1), off(1, 0), off(1, 1)],
        seq![off(0, 0), off(1, 0), off(0, 1), off(1, -1)],
        seq![off(0, 0), off(0, 1), off(1, 0), off(1, 1)],
        seq![off(0, 0), off(-1, 0), off(1, 0), off(0, 1)],
    ]
}

/// The colors that pieces are drawn in.
pub open spec fn palette() -> Seq<Rgb> {
    seq![
        Rgb { r: 64, g: 230, b: 100 },
        Rgb { r: 220, g: 64, b: 90 },
        Rgb { r: 70, g: 150, b: 210 },
        Rgb { r: 220, g: 230, b: 70 },
        Rgb { r: 35, g: 220, b: 241 },
        Rgb { r: 240, g: 140, b: 70 },
    ]
}

/// The shape catalog as a table.
pub fn block_patterns() -> (r: Vec<Pattern>)
    ensures
        r@.len() == catalog().len(),
        forall|i: int| 0 <= i < r@.len() ==> r@[i]@ == #[trigger] catalog()[i],
{
    let r: Vec<Pattern> = vec![
        [(0, 0), (0, -1), (0, 1), (0, 2)],
        [(0, 0), (0, -1), (0, 1), (-1, 1)],
        [(0, 0), (0, -1), (0, 1), (1, 1)],
        [(0, 0), (0, -1), (1, 0), (1, 1)],
        [(0, 0), (1, 0), (0, 1), (1, -1)],
        [(0, 0), (0, 1), (1, 0), (1, 1)],
        [(0, 0), (-1, 0), (1, 0), (0, 1)],
    ];
    assert(r@[0]@ =~= catalog()[0]);
    assert(r@[1]@ =~= catalog()[1]);
    assert(r@[2]@ =~= catalog()[2]);
    assert(r@[3]@ =~= catalog()[3]);
    assert(r@[4]@ =~= catalog()[4]);
    assert(r@[5]@ =~= catalog()[5]);
    assert(r@[6]@ =~= catalog()[6]);
    r
}

/// The palette as a table.
pub fn colors() -> (r: Vec<Rgb>)
    ensures
        r@ == palette(),
{
    let r: Vec<Rgb> = vec![
        Rgb::new(64, 230, 100),
        Rgb::new(220, 64, 90),
        Rgb::new(70, 150, 210),
        Rgb::new(220, 230, 70),
        Rgb::new(35, 220, 241),
        Rgb::new(240, 140, 70),
    ];
    assert(r@ =~= palette());
    r
}

/// Relies on rand::thread_rng and Rng::gen::<usize>: any `usize` may come
/// back, and nothing is promised of it.
#[verifier::external_body]
fn random_usize() -> (r: usize) {
    rand::thread_rng().gen::<usize>()
}

/// The pattern that a draw `draw` selects: entry `draw` modulo the table's length.
pub fn pick_block(block_patterns: &Vec<Pattern>, draw: usize) -> (r: Pattern)
    requires
        block_patterns@.len() > 0,
    ensures
        r == block_patterns@[draw as int % block_patterns@.len() as int],
{
    block_patterns[draw % block_patterns.len()]
}

/// The color that a draw `draw` selects: entry `draw` modulo the table's length.
pub fn pick_color(colors: &Vec<Rgb>, draw: usize) -> (r: Rgb)
    requires
        colors@.len() > 0,
    ensures
        r == colors@[draw as int % colors@.len() as int],
{
    colors[draw % colors.len()]
}

/// A pattern of the table, chosen at random.
pub fn next_block(block_patterns: &Vec<Pattern>) -> (r: Pattern)
    requires
        block_patterns@.len() > 0,
    ensures
        block_patterns@.contains(r),
{
    let draw = random_usize();
    let r = pick_block(block_patterns, draw);
    assert(block_patterns@[draw as int % block_patterns@.len() as int] == r);
    r
}

/// A color of the table, chosen at random.
pub fn next_color(colors: &Vec<Rgb>) -> (r: Rgb)
    requires
        colors@.len() > 0,
    ensures
        colors@.contains(r),
{
    let draw = random_usize();
    let r = pick_color(colors, draw);
    assert(colors@[draw as int % colors@.len() as int] == r);
    r
}

} // verus!
