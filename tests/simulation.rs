use tetris_core::block::{Block, Position, Rgb, Tag};
use tetris_core::board::GameBoard;
use tetris_core::catalog::{block_patterns, colors, next_block, next_color, pick_block, pick_color};
use tetris_core::game::Game;
use tetris_core::render::pixel_center;

fn occupied(g: &Game, x: i32, y: i32) -> bool {
    g.board.is_occupied(Position::new(x, y))
}

fn occupied_count(g: &Game) -> usize {
    g.board.cells.iter().filter(|c| **c).count()
}

fn game_with_free(cells: &[(i32, i32)]) -> Game {
    let mut g = Game::new();
    g.spawn_requested = false;
    let color = Rgb::new(1, 2, 3);
    for (x, y) in cells {
        g.blocks.push(Block::free(Position::new(*x, *y), color));
    }
    g
}

#[test]
fn new_game_is_empty_and_requests_a_piece() {
    let g = Game::new();
    assert_eq!(g.board.cells.len(), 180);
    assert_eq!(occupied_count(&g), 0);
    assert!(g.blocks.is_empty());
    assert!(g.spawn_requested);
    assert_eq!(g.block_patterns.len(), 7);
    assert_eq!(g.colors.len(), 6);
}

#[test]
fn spawn_i_shape_then_fall_to_the_floor() {
    let mut g = Game::new();
    g.spawn_block_with(0, 0);
    assert!(!g.spawn_requested);
    let got: Vec<(i32, i32)> = g.blocks.iter().map(|b| (b.pos.x, b.pos.y)).collect();
    assert_eq!(got, vec![(5, 14), (5, 13), (5, 15), (5, 16)]);
    assert!(g.blocks.iter().all(|b| b.tag == Tag::Free));

    let mut steps = 0;
    while !g.spawn_requested {
        g.block_fall(true);
        steps += 1;
        assert!(steps <= 20);
    }
    assert_eq!(steps, 14);
    let got: Vec<(i32, i32)> = g.blocks.iter().map(|b| (b.pos.x, b.pos.y)).collect();
    assert_eq!(got, vec![(5, 1), (5, 0), (5, 2), (5, 3)]);
    assert!(g.blocks.iter().all(|b| b.tag == Tag::Fixed));
    for y in 0..4 {
        assert!(occupied(&g, 5, y));
    }
    assert_eq!(occupied_count(&g), 4);
}

#[test]
fn cell_above_occupied_cell_freezes_at_once() {
    let mut g = game_with_free(&[(5, 1)]);
    g.board.occupy(Position::new(5, 0));
    g.block_fall(true);
    assert_eq!(g.blocks[0].pos, Position::new(5, 1));
    assert_eq!(g.blocks[0].tag, Tag::Fixed);
    assert!(occupied(&g, 5, 1));
    assert!(occupied(&g, 5, 0));
    assert!(g.spawn_requested);
}

#[test]
fn one_blocked_cell_freezes_the_whole_piece() {
    let cells = [(2, 0), (3, 4), (4, 6), (7, 9)];
    let mut g = game_with_free(&cells);
    g.block_fall(true);
    for (b, (x, y)) in g.blocks.iter().zip(cells.iter()) {
        assert_eq!(b.tag, Tag::Fixed);
        assert_eq!(b.pos, Position::new(*x, *y));
    }
    assert!(g.spawn_requested);
}

#[test]
fn freezing_marks_exactly_the_frozen_cells() {
    let cells = [(0, 0), (0, 1), (1, 1), (1, 2)];
    let mut g = game_with_free(&cells);
    g.block_fall(true);
    for (x, y) in cells.iter() {
        assert!(occupied(&g, *x, *y));
    }
    assert_eq!(occupied_count(&g), 4);
    assert!(g.spawn_requested);
}

#[test]
fn unfinished_clock_changes_nothing() {
    let mut g = game_with_free(&[(5, 0), (6, 3)]);
    g.board.occupy(Position::new(1, 1));
    let blocks = g.blocks.clone();
    let cells = g.board.cells.clone();
    g.block_fall(false);
    assert_eq!(g.blocks, blocks);
    assert_eq!(g.board.cells, cells);
    assert!(!g.spawn_requested);

    g.spawn_requested = true;
    g.block_fall(false);
    assert!(g.spawn_requested);
    assert_eq!(g.blocks, blocks);
}

#[test]
fn free_cells_drop_one_row_and_keep_their_columns() {
    let mut g = game_with_free(&[(3, 7), (4, 7), (4, 8), (9, 17)]);
    g.blocks.push(Block { pos: Position::new(0, 0), color: Rgb::new(9, 9, 9), tag: Tag::Fixed });
    g.board.occupy(Position::new(0, 0));
    g.block_fall(true);
    let got: Vec<(i32, i32)> = g.blocks.iter().map(|b| (b.pos.x, b.pos.y)).collect();
    assert_eq!(got, vec![(3, 6), (4, 6), (4, 7), (9, 16), (0, 0)]);
    assert_eq!(occupied_count(&g), 1);
    assert!(!g.spawn_requested);
}

#[test]
fn cell_off_the_playfield_never_lands() {
    let g = game_with_free(&[(20, 0)]);
    assert!(!g.cannot_fall());
    let g = game_with_free(&[(3, 0)]);
    assert!(g.cannot_fall());
    let g = game_with_free(&[]);
    assert!(!g.cannot_fall());
}

#[test]
fn every_shape_spawns_four_distinct_cells_at_origin() {
    let patterns = block_patterns();
    for k in 0..patterns.len() {
        let mut g = Game::new();
        g.spawn_block_with(k, 2);
        assert_eq!(g.blocks.len(), 4);
        for (i, b) in g.blocks.iter().enumerate() {
            let (dx, dy) = patterns[k][i];
            assert_eq!(b.pos, Position::new(5 + dx, 14 + dy));
            assert_eq!(b.color, Rgb::new(70, 150, 210));
            assert!(b.pos.is_in_bounds());
            for c in g.blocks.iter().skip(i + 1) {
                assert_ne!(b.pos, c.pos);
            }
        }
    }
}

#[test]
fn spawn_without_request_does_nothing() {
    let mut g = Game::new();
    g.spawn_requested = false;
    g.spawn_block_with(3, 3);
    g.spawn_block();
    assert!(g.blocks.is_empty());
    assert!(!g.spawn_requested);
}

#[test]
fn spawn_wraps_draws_around_the_tables() {
    let mut g = Game::new();
    g.spawn_block_with(7 + 5, 6 + 4);
    let got: Vec<(i32, i32)> = g.blocks.iter().map(|b| (b.pos.x, b.pos.y)).collect();
    assert_eq!(got, vec![(5, 14), (5, 15), (6, 14), (6, 15)]);
    assert_eq!(g.blocks[0].color, Rgb::new(35, 220, 241));
}

#[test]
fn random_spawn_uses_the_tables() {
    let mut g = Game::new();
    g.spawn_block();
    assert_eq!(g.blocks.len(), 4);
    assert!(!g.spawn_requested);
    let color = g.blocks[0].color;
    assert!(colors().contains(&color));
    assert!(g.blocks.iter().all(|b| b.color == color && b.tag == Tag::Free));
    let patterns = block_patterns();
    let fits_one = patterns.iter().any(|p| {
        p.iter().zip(g.blocks.iter()).all(|((dx, dy), b)| b.pos == Position::new(5 + dx, 14 + dy))
    });
    assert!(fits_one);
}

#[test]
fn picks_go_by_remainder() {
    let patterns = block_patterns();
    assert_eq!(pick_block(&patterns, 9), patterns[2]);
    assert_eq!(pick_block(&patterns, 0), [(0, 0), (0, -1), (0, 1), (0, 2)]);
    let palette = colors();
    assert_eq!(pick_color(&palette, 7), Rgb::new(220, 64, 90));
    assert_eq!(pick_color(&palette, usize::MAX), palette[usize::MAX % 6]);
}

#[test]
fn random_picks_come_from_the_tables() {
    let patterns = block_patterns();
    let palette = colors();
    for _ in 0..50 {
        assert!(patterns.contains(&next_block(&patterns)));
        assert!(palette.contains(&next_color(&palette)));
    }
}

#[test]
fn board_occupy_sets_one_cell() {
    let mut b = GameBoard::new();
    b.occupy(Position::new(9, 17));
    assert!(b.is_occupied(Position::new(9, 17)));
    assert!(!b.is_occupied(Position::new(8, 17)));
    assert!(!b.is_occupied(Position::new(9, 16)));
    assert_eq!(b.cells.iter().filter(|c| **c).count(), 1);
    assert!(b.cells[179]);
}

#[test]
fn pixel_centers_of_corner_cells() {
    assert_eq!(pixel_center(Position::new(0, 0)), (-180, -340));
    assert_eq!(pixel_center(Position::new(9, 17)), (180, 340));
    assert_eq!(pixel_center(Position::new(5, 14)), (20, 220));
}
