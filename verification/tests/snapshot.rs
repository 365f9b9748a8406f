use board_view::{BoardSnapshot, PieceKind, PlacedPiece, Side, SquareCoordinate, BOARD_EDGE};

fn square(file: u8, rank: u8) -> SquareCoordinate {
    SquareCoordinate::new(file, rank).unwrap()
}

const WHITE_ROOK: PlacedPiece = PlacedPiece { kind: PieceKind::Rook, side: Side::White };
const BLACK_QUEEN: PlacedPiece = PlacedPiece { kind: PieceKind::Queen, side: Side::Black };

#[test]
fn square_keeps_file_and_rank() {
    let corner = square(7, 0);
    assert_eq!(corner.file(), 7);
    assert_eq!(corner.rank(), 0);
    assert_eq!(corner.index(), 56);
    assert_eq!(square(0, 0).index(), 0);
    assert_eq!(square(0, 7).index(), 7);
    assert_eq!(square(3, 3).index(), 27);
    assert_eq!(square(7, 7).index(), 63);
}

#[test]
fn square_off_the_board_is_refused() {
    assert_eq!(BOARD_EDGE, 8);
    assert_eq!(SquareCoordinate::new(8, 0), None);
    assert_eq!(SquareCoordinate::new(0, 8), None);
    assert_eq!(SquareCoordinate::new(255, 255), None);
    assert!(SquareCoordinate::new(7, 7).is_some());
}

#[test]
fn squares_compare_by_file_and_rank() {
    assert_eq!(square(2, 5), square(2, 5));
    assert_ne!(square(2, 5), square(5, 2));
}

#[test]
fn new_snapshot_is_empty() {
    let snapshot = BoardSnapshot::new();
    assert_eq!(snapshot.selected(), None);
    for file in 0..8 {
        for rank in 0..8 {
            assert_eq!(snapshot.piece_at(square(file, rank)), None);
            assert!(!snapshot.is_highlighted(square(file, rank)));
            assert!(!snapshot.is_selected(square(file, rank)));
        }
    }
}

#[test]
fn placed_piece_is_found_on_its_square_only() {
    let snapshot = BoardSnapshot::new().with_piece(square(0, 7), WHITE_ROOK);
    assert_eq!(snapshot.piece_at(square(0, 7)), Some(WHITE_ROOK));
    assert_eq!(snapshot.piece_at(square(7, 0)), None);
    assert_eq!(snapshot.piece_at(square(0, 6)), None);
    assert_eq!(snapshot.piece_at(square(1, 7)), None);
}

#[test]
fn placing_again_replaces_the_piece() {
    let snapshot = BoardSnapshot::new()
        .with_piece(square(4, 4), WHITE_ROOK)
        .with_piece(square(4, 4), BLACK_QUEEN);
    assert_eq!(snapshot.piece_at(square(4, 4)), Some(BLACK_QUEEN));
}

#[test]
fn removed_piece_leaves_the_square_empty() {
    let snapshot = BoardSnapshot::new()
        .with_piece(square(4, 4), WHITE_ROOK)
        .with_piece(square(4, 5), BLACK_QUEEN)
        .without_piece(square(4, 4));
    assert_eq!(snapshot.piece_at(square(4, 4)), None);
    assert_eq!(snapshot.piece_at(square(4, 5)), Some(BLACK_QUEEN));
}

#[test]
fn selection_is_one_square_or_none() {
    let snapshot = BoardSnapshot::new().with_selection(Some(square(3, 3)));
    assert_eq!(snapshot.selected(), Some(square(3, 3)));
    assert!(snapshot.is_selected(square(3, 3)));
    assert!(!snapshot.is_selected(square(3, 4)));
    let moved = snapshot.with_selection(Some(square(1, 2)));
    assert!(moved.is_selected(square(1, 2)));
    assert!(!moved.is_selected(square(3, 3)));
    let cleared = moved.with_selection(None);
    assert_eq!(cleared.selected(), None);
    assert!(!cleared.is_selected(square(1, 2)));
}

#[test]
fn highlights_accumulate_until_cleared() {
    let snapshot = BoardSnapshot::new()
        .with_highlight(square(2, 5))
        .with_highlight(square(6, 1))
        .with_highlight(square(2, 5));
    assert!(snapshot.is_highlighted(square(2, 5)));
    assert!(snapshot.is_highlighted(square(6, 1)));
    assert!(!snapshot.is_highlighted(square(5, 2)));
    let cleared = snapshot.without_highlights();
    assert!(!cleared.is_highlighted(square(2, 5)));
    assert!(!cleared.is_highlighted(square(6, 1)));
}

#[test]
fn pieces_selection_and_highlights_do_not_disturb_each_other() {
    let snapshot = BoardSnapshot::new()
        .with_piece(square(1, 1), WHITE_ROOK)
        .with_selection(Some(square(1, 1)))
        .with_highlight(square(1, 6))
        .without_piece(square(0, 0))
        .without_highlights()
        .with_highlight(square(1, 4));
    assert_eq!(snapshot.piece_at(square(1, 1)), Some(WHITE_ROOK));
    assert_eq!(snapshot.selected(), Some(square(1, 1)));
    assert!(snapshot.is_highlighted(square(1, 4)));
    assert!(!snapshot.is_highlighted(square(1, 6)));
    assert!(!snapshot.is_highlighted(square(1, 1)));
}

#[test]
fn cloned_snapshot_holds_the_same_picture() {
    let snapshot = BoardSnapshot::new()
        .with_piece(square(6, 2), BLACK_QUEEN)
        .with_selection(Some(square(6, 2)))
        .with_highlight(square(6, 3));
    let copy = snapshot.clone();
    let changed = snapshot.without_piece(square(6, 2));
    assert_eq!(copy.piece_at(square(6, 2)), Some(BLACK_QUEEN));
    assert_eq!(copy.selected(), Some(square(6, 2)));
    assert!(copy.is_highlighted(square(6, 3)));
    assert!(!copy.is_highlighted(square(6, 2)));
    assert_eq!(changed.piece_at(square(6, 2)), None);
}
