use board_view::{
    AssetIndex, AssetLoadError, PieceKind, PlacedPiece, Side, View, DEFAULT_RESOURCE_ROOT,
    PIECE_COUNT,
};

const KINDS: [PieceKind; 6] = [
    PieceKind::Pawn,
    PieceKind::Rook,
    PieceKind::Knight,
    PieceKind::Bishop,
    PieceKind::Queen,
    PieceKind::King,
];

const SIDES: [Side; 2] = [Side::White, Side::Black];

fn all_loaded() -> Vec<Option<String>> {
    AssetIndex::<String>::paths("pieces").into_iter().map(Some).collect()
}

#[test]
fn paths_follow_the_canonical_order() {
    let paths = AssetIndex::<u8>::paths("res/img");
    let expected = vec![
        "res/img/white-pawn.png",
        "res/img/white-rook.png",
        "res/img/white-knight.png",
        "res/img/white-bishop.png",
        "res/img/white-queen.png",
        "res/img/white-king.png",
        "res/img/black-pawn.png",
        "res/img/black-rook.png",
        "res/img/black-knight.png",
        "res/img/black-bishop.png",
        "res/img/black-queen.png",
        "res/img/black-king.png",
    ];
    assert_eq!(paths, expected);
}

#[test]
fn path_joins_root_side_and_kind() {
    assert_eq!(AssetIndex::<u8>::path("a", Side::Black, PieceKind::Knight), "a/black-knight.png");
    assert_eq!(AssetIndex::<u8>::path("", Side::White, PieceKind::King), "/white-king.png");
    assert_eq!(
        AssetIndex::<u8>::path("x/y/", Side::White, PieceKind::Queen),
        "x/y//white-queen.png"
    );
}

#[test]
fn slots_run_white_then_black() {
    let mut expected = 0;
    for side in SIDES {
        for kind in KINDS {
            let piece = PlacedPiece { kind, side };
            assert_eq!(piece.slot(), expected);
            assert_eq!(PlacedPiece::at_slot(expected), Some(piece));
            expected += 1;
        }
    }
    assert_eq!(expected, PIECE_COUNT);
}

#[test]
fn no_piece_past_the_twelfth_slot() {
    assert_eq!(PlacedPiece::at_slot(12), None);
    assert_eq!(PlacedPiece::at_slot(usize::MAX), None);
}

#[test]
fn lookup_finds_each_of_the_twelve() {
    let index = AssetIndex::load("pieces", all_loaded()).unwrap();
    assert_eq!(index.lookup(PieceKind::Pawn, Side::White), "pieces/white-pawn.png");
    assert_eq!(index.lookup(PieceKind::King, Side::White), "pieces/white-king.png");
    assert_eq!(index.lookup(PieceKind::Pawn, Side::Black), "pieces/black-pawn.png");
    assert_eq!(index.lookup(PieceKind::Rook, Side::Black), "pieces/black-rook.png");
    for side in SIDES {
        for kind in KINDS {
            let expected = AssetIndex::<u8>::path("pieces", side, kind);
            assert_eq!(index.lookup(kind, side), &expected);
        }
    }
}

#[test]
fn lookup_is_stable() {
    let index = AssetIndex::load("pieces", all_loaded()).unwrap();
    let first = index.lookup(PieceKind::Bishop, Side::Black);
    let second = index.lookup(PieceKind::Bishop, Side::Black);
    assert!(std::ptr::eq(first, second));
    assert_eq!(first, second);
}

#[test]
fn lookup_does_not_hand_back_the_first_handle_for_every_piece() {
    let outcomes: Vec<Option<u32>> = (100..112).map(Some).collect();
    let index = AssetIndex::load("pieces", outcomes).unwrap();
    assert_eq!(*index.lookup(PieceKind::Pawn, Side::White), 100);
    assert_eq!(*index.lookup(PieceKind::Knight, Side::White), 102);
    assert_eq!(*index.lookup(PieceKind::Queen, Side::Black), 110);
    assert_eq!(*index.lookup(PieceKind::King, Side::Black), 111);
}

#[test]
fn load_reports_the_first_missing_image() {
    let mut outcomes = all_loaded();
    outcomes[4] = None;
    outcomes[9] = None;
    let error = AssetIndex::load("pieces", outcomes).unwrap_err();
    assert_eq!(
        error,
        AssetLoadError {
            side: Side::White,
            kind: PieceKind::Queen,
            path: String::from("pieces/white-queen.png"),
        }
    );
}

#[test]
fn load_reports_a_missing_black_image() {
    let mut outcomes = all_loaded();
    outcomes[11] = None;
    let error = AssetIndex::load("deep/root", outcomes).unwrap_err();
    assert_eq!(error.side, Side::Black);
    assert_eq!(error.kind, PieceKind::King);
    assert_eq!(error.path, "deep/root/black-king.png");
}

#[test]
fn load_treats_a_short_list_as_missing_from_its_end() {
    let mut outcomes = all_loaded();
    outcomes.truncate(7);
    let error = AssetIndex::load("pieces", outcomes).unwrap_err();
    assert_eq!(error.side, Side::Black);
    assert_eq!(error.kind, PieceKind::Rook);
    assert_eq!(error.path, "pieces/black-rook.png");
}

#[test]
fn load_of_nothing_misses_the_white_pawn() {
    let error = AssetIndex::<u8>::load("pieces", Vec::new()).unwrap_err();
    assert_eq!(error.side, Side::White);
    assert_eq!(error.kind, PieceKind::Pawn);
    assert_eq!(error.path, "pieces/white-pawn.png");
}

#[test]
fn load_prefers_an_earlier_gap_to_a_short_list() {
    let outcomes = vec![Some(1u8), None, Some(3)];
    let error = AssetIndex::load("pieces", outcomes).unwrap_err();
    assert_eq!(error.kind, PieceKind::Rook);
    assert_eq!(error.side, Side::White);
}

#[test]
fn load_drops_entries_past_the_twelfth() {
    let mut outcomes: Vec<Option<u32>> = (0..12).map(Some).collect();
    outcomes.push(None);
    outcomes.push(Some(99));
    let index = AssetIndex::load("pieces", outcomes).unwrap();
    assert_eq!(*index.lookup(PieceKind::King, Side::Black), 11);
    assert_eq!(*index.lookup(PieceKind::Pawn, Side::White), 0);
}

#[test]
fn create_textures_looks_below_the_default_root() {
    assert_eq!(DEFAULT_RESOURCE_ROOT, "gui/resources/pieces");
    let mut outcomes: Vec<Option<u32>> = (0..12).map(Some).collect();
    outcomes[8] = None;
    let error = View::create_textures(outcomes).unwrap_err();
    assert_eq!(
        error,
        AssetLoadError {
            side: Side::Black,
            kind: PieceKind::Knight,
            path: String::from("gui/resources/pieces/black-knight.png"),
        }
    );
}

#[test]
fn create_textures_builds_the_index_when_all_are_loaded() {
    let outcomes: Vec<Option<u32>> = (0..12).map(|slot| Some(slot * 2)).collect();
    let index = View::create_textures(outcomes).unwrap();
    assert_eq!(*index.lookup(PieceKind::Bishop, Side::White), 6);
    assert_eq!(*index.lookup(PieceKind::Bishop, Side::Black), 18);
}
