use chess_core::board::Board;
use chess_core::pieces::bishop::Bishop;
use chess_core::pieces::horse::Horse;
use chess_core::pieces::horse::try_leap;
use chess_core::pieces::piece::{Piece, Team};
use chess_core::pieces::slide::walk_ray;
use chess_core::pieces::squares::{contains_square, push_new};
use chess_core::pieces::tower::Tower;

fn sorted(mut list: Vec<(usize, usize)>) -> Vec<(usize, usize)> {
    list.sort();
    list
}

fn sample_board() -> Board {
    let mut board = Board::new();
    board.set((3, 3), Some(Piece::Bishop(Bishop::new(Team::Green))));
    board.set((0, 0), Some(Piece::Tower(Tower::new(Team::Black))));
    board.set((4, 4), Some(Piece::Horse(Horse::new(Team::Green))));
    board.set((3, 6), Some(Piece::Tower(Tower::new(Team::Black))));
    board.set((6, 3), Some(Piece::Horse(Horse::new(Team::Black))));
    board.set((1, 5), Some(Piece::Bishop(Bishop::new(Team::Black))));
    board
}

fn all_pieces() -> Vec<Piece> {
    vec![
        Piece::Bishop(Bishop::new(Team::Green)),
        Piece::Bishop(Bishop::new(Team::Black)),
        Piece::Horse(Horse::new(Team::Green)),
        Piece::Horse(Horse::new(Team::Black)),
        Piece::Tower(Tower::new(Team::Green)),
        Piece::Tower(Tower::new(Team::Black)),
    ]
}

#[test]
fn new_board_is_empty() {
    let board = Board::new();
    for r in 0..8 {
        for c in 0..8 {
            assert_eq!(board.get((r, c)), None);
        }
    }
}

#[test]
fn set_changes_one_square() {
    let mut board = Board::new();
    let piece = Piece::Horse(Horse::new(Team::Black));
    board.set((2, 5), Some(piece));
    for r in 0..8 {
        for c in 0..8 {
            let expected = if (r, c) == (2, 5) { Some(piece) } else { None };
            assert_eq!(board.get((r, c)), expected);
        }
    }
    board.set((2, 5), None);
    assert_eq!(board.get((2, 5)), None);
}

#[test]
fn bounds_are_zero_to_seven() {
    assert!(Board::is_in_bounds((0, 0)));
    assert!(Board::is_in_bounds((7, 7)));
    assert!(Board::is_in_bounds((0, 7)));
    assert!(!Board::is_in_bounds((8, 0)));
    assert!(!Board::is_in_bounds((0, 8)));
    assert!(!Board::is_in_bounds((usize::MAX, 3)));
}

#[test]
fn team_accessors() {
    assert_eq!(Bishop::new(Team::Green).team(), Team::Green);
    assert_eq!(Horse::new(Team::Black).team(), Team::Black);
    assert_eq!(Tower::new(Team::Green).team(), Team::Green);
    assert_eq!(Piece::Bishop(Bishop::new(Team::Black)).team(), Team::Black);
    assert_eq!(Piece::Horse(Horse::new(Team::Green)).team(), Team::Green);
    assert_eq!(Piece::Tower(Tower::new(Team::Black)).team(), Team::Black);
}

#[test]
fn texture_keys() {
    assert_eq!(Piece::Bishop(Bishop::new(Team::Green)).texture_key(), "bishop_green");
    assert_eq!(Piece::Bishop(Bishop::new(Team::Black)).texture_key(), "bishop_black");
    assert_eq!(Piece::Horse(Horse::new(Team::Green)).texture_key(), "horse_green");
    assert_eq!(Piece::Horse(Horse::new(Team::Black)).texture_key(), "horse_black");
    assert_eq!(Piece::Tower(Tower::new(Team::Green)).texture_key(), "tower_green");
    assert_eq!(Piece::Tower(Tower::new(Team::Black)).texture_key(), "tower_black");
}

#[test]
fn tower_on_empty_board_reaches_its_row_and_column() {
    let mut board = Board::new();
    let tower = Tower::new(Team::Green);
    board.set((3, 3), Some(Piece::Tower(tower)));
    let mut expected = Vec::new();
    for i in 0..8 {
        if i != 3 {
            expected.push((3, i));
            expected.push((i, 3));
        }
    }
    let found = tower.valid_positions((3, 3), &board);
    assert_eq!(found.len(), 14);
    assert_eq!(sorted(found), sorted(expected));
}

#[test]
fn tower_captures_and_stops() {
    let mut board = Board::new();
    let tower = Tower::new(Team::Green);
    board.set((3, 3), Some(Piece::Tower(tower)));
    board.set((3, 6), Some(Piece::Bishop(Bishop::new(Team::Black))));
    let found = tower.valid_positions((3, 3), &board);
    assert!(found.contains(&(3, 4)));
    assert!(found.contains(&(3, 5)));
    assert!(found.contains(&(3, 6)));
    assert!(!found.contains(&(3, 7)));
    assert_eq!(found.len(), 13);
    assert!(tower.is_position_valid((3, 3), (3, 6), &board));
    assert!(!tower.is_position_valid((3, 3), (3, 7), &board));
}

#[test]
fn tower_is_blocked_by_its_own_team() {
    let mut board = Board::new();
    let tower = Tower::new(Team::Green);
    board.set((3, 3), Some(Piece::Tower(tower)));
    board.set((3, 5), Some(Piece::Horse(Horse::new(Team::Green))));
    board.set((1, 3), Some(Piece::Horse(Horse::new(Team::Green))));
    let found = sorted(tower.valid_positions((3, 3), &board));
    let expected = sorted(vec![
        (3, 4),
        (3, 2),
        (3, 1),
        (3, 0),
        (2, 3),
        (4, 3),
        (5, 3),
        (6, 3),
        (7, 3),
    ]);
    assert_eq!(found, expected);
}

#[test]
fn tower_block_on_one_ray_leaves_the_others() {
    let mut board = Board::new();
    let tower = Tower::new(Team::Black);
    board.set((0, 0), Some(Piece::Tower(tower)));
    board.set((0, 1), Some(Piece::Horse(Horse::new(Team::Black))));
    let found = sorted(tower.valid_positions((0, 0), &board));
    let expected: Vec<(usize, usize)> = (1..8).map(|r| (r, 0)).collect();
    assert_eq!(found, expected);
}

#[test]
fn tower_never_stays_in_place() {
    let mut board = Board::new();
    let tower = Tower::new(Team::Green);
    board.set((3, 3), Some(Piece::Tower(tower)));
    assert!(!tower.is_position_valid((3, 3), (3, 3), &board));
    assert!(!tower.is_position_valid((3, 3), (4, 4), &board));
    assert!(!tower.is_position_valid((3, 3), (3, 8), &board));
}

#[test]
fn bishop_on_empty_board_reaches_its_diagonals() {
    let mut board = Board::new();
    let bishop = Bishop::new(Team::Green);
    board.set((3, 3), Some(Piece::Bishop(bishop)));
    let expected = sorted(vec![
        (0, 0),
        (1, 1),
        (2, 2),
        (4, 4),
        (5, 5),
        (6, 6),
        (7, 7),
        (2, 4),
        (1, 5),
        (0, 6),
        (4, 2),
        (5, 1),
        (6, 0),
    ]);
    assert_eq!(sorted(bishop.valid_positions((3, 3), &board)), expected);
}

#[test]
fn bishop_in_a_corner() {
    let mut board = Board::new();
    let bishop = Bishop::new(Team::Black);
    board.set((7, 0), Some(Piece::Bishop(bishop)));
    let expected: Vec<(usize, usize)> = (0..7).map(|r| (r, 7 - r)).collect();
    assert_eq!(sorted(bishop.valid_positions((7, 0), &board)), expected);
}

#[test]
fn bishop_captures_and_is_blocked() {
    let mut board = Board::new();
    let bishop = Bishop::new(Team::Green);
    board.set((3, 3), Some(Piece::Bishop(bishop)));
    board.set((5, 5), Some(Piece::Tower(Tower::new(Team::Black))));
    board.set((2, 2), Some(Piece::Tower(Tower::new(Team::Green))));
    board.set((1, 5), Some(Piece::Tower(Tower::new(Team::Black))));
    let expected = sorted(vec![(4, 4), (5, 5), (2, 4), (1, 5), (4, 2), (5, 1), (6, 0)]);
    assert_eq!(sorted(bishop.valid_positions((3, 3), &board)), expected);
    assert!(bishop.is_position_valid((3, 3), (5, 5), &board));
    assert!(!bishop.is_position_valid((3, 3), (6, 6), &board));
    assert!(!bishop.is_position_valid((3, 3), (2, 2), &board));
    assert!(!bishop.is_position_valid((3, 3), (1, 1), &board));
    assert!(!bishop.is_position_valid((3, 3), (3, 4), &board));
}

#[test]
fn horse_in_the_corner_has_two_leaps() {
    let mut board = Board::new();
    let horse = Horse::new(Team::Green);
    board.set((0, 0), Some(Piece::Horse(horse)));
    assert_eq!(sorted(horse.valid_positions((0, 0), &board)), vec![(1, 2), (2, 1)]);
}

#[test]
fn horse_in_the_far_corner_has_two_leaps() {
    let board = Board::new();
    let horse = Horse::new(Team::Black);
    assert_eq!(sorted(horse.valid_positions((7, 7), &board)), vec![(5, 6), (6, 5)]);
}

#[test]
fn horse_in_the_middle_has_eight_leaps() {
    let mut board = Board::new();
    let horse = Horse::new(Team::Green);
    board.set((4, 4), Some(Piece::Horse(horse)));
    let expected = sorted(vec![
        (5, 6),
        (6, 5),
        (5, 2),
        (3, 2),
        (3, 6),
        (6, 3),
        (2, 5),
        (2, 3),
    ]);
    assert_eq!(sorted(horse.valid_positions((4, 4), &board)), expected);
}

#[test]
fn horse_leaps_over_anything_and_spares_its_team() {
    let mut board = Board::new();
    let horse = Horse::new(Team::Green);
    board.set((4, 4), Some(Piece::Horse(horse)));
    for r in 3..6 {
        for c in 3..6 {
            if (r, c) != (4, 4) {
                board.set((r, c), Some(Piece::Tower(Tower::new(Team::Black))));
            }
        }
    }
    board.set((5, 6), Some(Piece::Bishop(Bishop::new(Team::Green))));
    board.set((6, 5), Some(Piece::Bishop(Bishop::new(Team::Black))));
    let expected = sorted(vec![(6, 5), (5, 2), (3, 2), (3, 6), (6, 3), (2, 5), (2, 3)]);
    assert_eq!(sorted(horse.valid_positions((4, 4), &board)), expected);
    assert!(horse.is_position_valid((4, 4), (6, 5), &board));
    assert!(!horse.is_position_valid((4, 4), (5, 6), &board));
    assert!(!horse.is_position_valid((4, 4), (4, 5), &board));
}

#[test]
fn destinations_are_on_the_board_and_away_from_the_origin() {
    let board = sample_board();
    for piece in all_pieces() {
        for r in 0..8 {
            for c in 0..8 {
                let found = piece.valid_positions((r, c), &board);
                for d in &found {
                    assert!(d.0 < 8 && d.1 < 8);
                    assert_ne!(*d, (r, c));
                }
                let mut unique = found.clone();
                unique.sort();
                unique.dedup();
                assert_eq!(unique.len(), found.len());
            }
        }
    }
}

#[test]
fn validity_agrees_with_the_list_of_destinations() {
    let board = sample_board();
    for piece in all_pieces() {
        for r in 0..8 {
            for c in 0..8 {
                let found = piece.valid_positions((r, c), &board);
                for dr in 0..9 {
                    for dc in 0..9 {
                        assert_eq!(
                            piece.is_position_valid((r, c), (dr, dc), &board),
                            found.contains(&(dr, dc))
                        );
                    }
                }
            }
        }
    }
}

#[test]
fn dispatch_agrees_with_each_kind() {
    let board = sample_board();
    let origin = (3, 3);
    let bishop = Bishop::new(Team::Green);
    let horse = Horse::new(Team::Green);
    let tower = Tower::new(Team::Green);
    assert_eq!(
        Piece::Bishop(bishop).valid_positions(origin, &board),
        bishop.valid_positions(origin, &board)
    );
    assert_eq!(
        Piece::Horse(horse).valid_positions(origin, &board),
        horse.valid_positions(origin, &board)
    );
    assert_eq!(
        Piece::Tower(tower).valid_positions(origin, &board),
        tower.valid_positions(origin, &board)
    );
    assert_eq!(
        sorted(Piece::Tower(tower).valid_positions(origin, &board)),
        sorted(vec![
            (3, 4),
            (3, 5),
            (3, 6),
            (3, 2),
            (3, 1),
            (3, 0),
            (2, 3),
            (1, 3),
            (0, 3),
            (4, 3),
            (5, 3),
            (6, 3)
        ])
    );
}

#[test]
fn push_new_appends() {
    let mut list = vec![(1, 2)];
    push_new(&mut list, (3, 4));
    assert_eq!(list, vec![(1, 2), (3, 4)]);
}

#[test]
fn contains_square_finds_what_is_listed() {
    let list = vec![(1, 2), (3, 4), (5, 6)];
    assert!(contains_square(&list, (1, 2)));
    assert!(contains_square(&list, (5, 6)));
    assert!(!contains_square(&list, (2, 1)));
    assert!(!contains_square(&list, (1, 4)));
    assert!(!contains_square(&Vec::new(), (0, 0)));
}

#[test]
fn walk_ray_lists_the_nearest_square_first() {
    let board = Board::new();
    let mut list = vec![(7, 0)];
    walk_ray(&board, Team::Green, (3, 3), 0, 1, &mut list);
    assert_eq!(list, vec![(7, 0), (3, 4), (3, 5), (3, 6), (3, 7)]);
    walk_ray(&board, Team::Green, (3, 3), -1, -1, &mut list);
    assert_eq!(
        list,
        vec![(7, 0), (3, 4), (3, 5), (3, 6), (3, 7), (2, 2), (1, 1), (0, 0)]
    );
}

#[test]
fn walk_ray_stops_at_the_first_occupant() {
    let mut board = Board::new();
    board.set((5, 3), Some(Piece::Horse(Horse::new(Team::Black))));
    board.set((6, 3), Some(Piece::Horse(Horse::new(Team::Green))));
    let mut list = Vec::new();
    walk_ray(&board, Team::Green, (3, 3), 1, 0, &mut list);
    assert_eq!(list, vec![(4, 3), (5, 3)]);
    let mut list = Vec::new();
    walk_ray(&board, Team::Black, (3, 3), 1, 0, &mut list);
    assert_eq!(list, vec![(4, 3)]);
}

#[test]
fn walk_ray_from_the_edge_adds_nothing() {
    let board = Board::new();
    let mut list = Vec::new();
    walk_ray(&board, Team::Green, (0, 5), -1, 0, &mut list);
    walk_ray(&board, Team::Green, (0, 7), -1, 1, &mut list);
    walk_ray(&board, Team::Green, (7, 0), 1, -1, &mut list);
    assert!(list.is_empty());
}

#[test]
fn try_leap_adds_one_square_or_none() {
    let mut board = Board::new();
    board.set((2, 1), Some(Piece::Tower(Tower::new(Team::Green))));
    board.set((1, 2), Some(Piece::Tower(Tower::new(Team::Black))));
    let mut list = Vec::new();
    try_leap(&board, Team::Green, (0, 0), -1, -2, &mut list);
    assert!(list.is_empty());
    try_leap(&board, Team::Green, (0, 0), 2, 1, &mut list);
    assert!(list.is_empty());
    try_leap(&board, Team::Green, (0, 0), 1, 2, &mut list);
    assert_eq!(list, vec![(1, 2)]);
    try_leap(&board, Team::Green, (7, 7), 1, 2, &mut list);
    assert_eq!(list, vec![(1, 2)]);
    try_leap(&board, Team::Green, (7, 7), -2, -1, &mut list);
    assert_eq!(list, vec![(1, 2), (5, 6)]);
}
