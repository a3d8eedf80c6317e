use quoridor::player::{Player, PlayerPosition};
use quoridor::{Board, WallDirection};

fn pos(x: usize, y: usize) -> PlayerPosition {
    PlayerPosition { x, y }
}

#[test]
fn construct_two_players() {
    let b = Board::new(2);
    assert_eq!(b.players.len(), 2);
    assert_eq!(b.players[0].pos, pos(4, 0));
    assert_eq!(b.players[1].pos, pos(4, 8));
    assert_eq!(b.players[0].walls_remaining, 10);
    assert_eq!(b.players[1].walls_remaining, 10);
}

#[test]
fn construct_three_players() {
    let b = Board::new(3);
    assert_eq!(b.players.len(), 3);
    assert_eq!(b.players[0].pos, pos(4, 0));
    assert_eq!(b.players[1].pos, pos(4, 8));
    assert_eq!(b.players[2].pos, pos(0, 4));
    for p in &b.players {
        assert_eq!(p.walls_remaining, 6);
    }
}

#[test]
fn construct_four_players() {
    let b = Board::new(4);
    assert_eq!(b.players.len(), 4);
    assert_eq!(b.players[0].pos, pos(4, 0));
    assert_eq!(b.players[1].pos, pos(4, 8));
    assert_eq!(b.players[2].pos, pos(0, 4));
    assert_eq!(b.players[3].pos, pos(8, 4));
    for p in &b.players {
        assert_eq!(p.walls_remaining, 5);
    }
}

#[test]
fn construct_leaves_grid_empty() {
    let b = Board::new(2);
    assert_eq!(b.nodes.len(), 64);
    for x in 0..8 {
        for y in 0..8 {
            assert_eq!(b.wall_at(x, y), None);
        }
    }
}

#[test]
fn player_new_splits_wall_stock() {
    let p = Player::new(pos(2, 2), 3);
    assert_eq!(p.pos, pos(2, 2));
    assert_eq!(p.walls_remaining, 6);
}

#[test]
fn wall_direction_predicates() {
    assert!(WallDirection::Vertical.is_vertical());
    assert!(!WallDirection::Vertical.is_horizontal());
    assert!(WallDirection::Horizontal.is_horizontal());
    assert!(!WallDirection::Horizontal.is_vertical());
}

#[test]
fn place_wall_stores_segment() {
    let mut b = Board::new(2);
    b.place_wall(3, 5, WallDirection::Vertical);
    assert_eq!(b.wall_at(3, 5), Some(WallDirection::Vertical));
    assert_eq!(b.wall_at(5, 3), None);
}

#[test]
fn place_wall_overwrites_existing_segment() {
    let mut b = Board::new(2);
    b.place_wall(1, 1, WallDirection::Vertical);
    b.place_wall(1, 1, WallDirection::Horizontal);
    assert_eq!(b.wall_at(1, 1), Some(WallDirection::Horizontal));
}

#[test]
fn place_wall_out_of_range_is_no_op() {
    let mut b = Board::new(2);
    b.place_wall(2, 2, WallDirection::Vertical);
    let before = b.nodes.clone();
    b.place_wall(8, 0, WallDirection::Horizontal);
    assert_eq!(b.nodes, before);
    b.place_wall(0, 8, WallDirection::Horizontal);
    assert_eq!(b.nodes, before);
    b.place_wall(8, 8, WallDirection::Vertical);
    assert_eq!(b.nodes, before);
}

#[test]
fn wall_at_out_of_range_is_none() {
    let b = Board::new(2);
    assert_eq!(b.wall_at(8, 0), None);
    assert_eq!(b.wall_at(0, 8), None);
    assert_eq!(b.wall_at(100, 100), None);
}

#[test]
fn adjacency_cases() {
    assert!(!Board::are_adjacent(&pos(4, 4), &pos(4, 4)));
    assert!(Board::are_adjacent(&pos(4, 4), &pos(5, 5)));
    assert!(!Board::are_adjacent(&pos(4, 4), &pos(6, 4)));
    assert!(Board::are_adjacent(&pos(4, 4), &pos(4, 5)));
    assert!(Board::are_adjacent(&pos(0, 0), &pos(1, 0)));
}

#[test]
fn vertical_wall_bisects_horizontal_pair() {
    let mut b = Board::new(2);
    b.place_wall(0, 0, WallDirection::Vertical);
    assert!(b.are_bisected(&pos(0, 0), &pos(1, 0)));
    assert!(!b.are_bisected(&pos(0, 0), &pos(0, 1)));
}

#[test]
fn horizontal_wall_bisects_vertical_pair() {
    let mut b = Board::new(2);
    b.place_wall(2, 3, WallDirection::Horizontal);
    assert!(b.are_bisected(&pos(2, 3), &pos(2, 4)));
}

#[test]
fn wall_spans_two_cell_widths() {
    // A horizontal wall anchored at (2, 3) also blocks the pair one
    // column to its east, and a vertical one the pair one row south.
    let mut b = Board::new(2);
    b.place_wall(2, 3, WallDirection::Horizontal);
    assert!(b.are_bisected(&pos(3, 3), &pos(3, 4)));
    b.place_wall(5, 5, WallDirection::Vertical);
    assert!(b.are_bisected(&pos(5, 6), &pos(6, 6)));
}

#[test]
fn non_adjacent_pairs_count_as_bisected() {
    let b = Board::new(2);
    assert!(b.are_bisected(&pos(0, 0), &pos(2, 0)));
    assert!(b.are_bisected(&pos(3, 3), &pos(3, 3)));
}

#[test]
fn bisection_query_is_repeatable() {
    let mut b = Board::new(2);
    b.place_wall(2, 3, WallDirection::Horizontal);
    let first = b.are_bisected(&pos(2, 3), &pos(2, 4));
    let second = b.are_bisected(&pos(2, 3), &pos(2, 4));
    let third = b.are_bisected(&pos(2, 3), &pos(2, 4));
    assert_eq!(first, second);
    assert_eq!(second, third);
}
