//! What the game looks like for one frame.

use vstd::prelude::*;
use crate::piece::PlacedPiece;
use crate::square::{on_board, square_index, SquareCoordinate};

verus! {

/// The mathematical content of a snapshot, over `(file, rank)` pairs.
pub struct SnapshotView {
    /// The occupied squares and the piece on each.
    pub pieces: Map<(int, int), PlacedPiece>,
    /// The selected square, if there is one.
    pub selected: Option<(int, int)>,
    /// The squares marked as destinations of the selected piece.
    pub highlighted: Set<(int, int)>,
}

impl SnapshotView {
    /// The piece on a square, or `None` for an empty square.
    pub open spec fn piece_at(self, square: (int, int)) -> Option<PlacedPiece> {
        if self.pieces.contains_key(square) {
            Some(self.pieces[square])
        } else {
            None
        }
    }

    /// A snapshot speaks of squares of the board only.
    pub open spec fn wf(self) -> bool {
        &&& forall|square: (int, int)| #[trigger] self.pieces.contains_key(square) ==> on_board(square)
        &&& forall|square: (int, int)| #[trigger] self.highlighted.contains(square) ==> on_board(square)
        &&& self.selected matches Some(square) ==> on_board(square)
    }
}

/// A read-only picture of the game for one frame: the piece on each square,
/// the selected square if any, and the highlighted destination squares.
#[derive(Debug)]
pub struct BoardSnapshot {
    pieces: Vec<Option<PlacedPiece>>,
    selected: Option<SquareCoordinate>,
    highlighted: Vec<bool>,
}

impl View for BoardSnapshot {
    type V = SnapshotView;

    closed spec fn view(&self) -> SnapshotView {
        SnapshotView {
            pieces: Map::new(
                |square: (int, int)| on_board(square) && self.pieces@[square_index(square)] is Some,
                |square: (int, int)| self.pieces@[square_index(square)]->Some_0,
            ),
            selected: match self.selected {
                Some(square) if on_board(square@) => Some(square@),
                _ => None,
            },
            highlighted: Set::new(
                |square: (int, int)| on_board(square) && self.highlighted@[square_index(square)],
            ),
        }
    }
}

impl BoardSnapshot {
    #[verifier::type_invariant]
    closed spec fn covers_board(self) -> bool {
        self.pieces@.len() == 64 && self.highlighted@.len() == 64
    }

    /// An empty board with nothing selected and nothing highlighted.
    pub fn new() -> (snapshot: BoardSnapshot)
        ensures
            snapshot@ == (SnapshotView {
                pieces: Map::empty(),
                selected: None,
                highlighted: Set::empty(),
            }),
    {
        let mut pieces: Vec<Option<PlacedPiece>> = Vec::new();
        let mut highlighted: Vec<bool> = Vec::new();
        let mut count: usize = 0;
        while count < 64
            invariant
                count <= 64,
                pieces@.len() == count,
                highlighted@.len() == count,
                forall|i: int| 0 <= i < count ==> (#[trigger] pieces@[i]) is None,
                forall|i: int| 0 <= i < count ==> !(#[trigger] highlighted@[i]),
            decreases 64 - count,
        {
            pieces.push(None);
            highlighted.push(false);
            count = count + 1;
        }
        let snapshot = BoardSnapshot { pieces, selected: None, highlighted };
        assert(snapshot@.pieces =~= Map::empty());
        assert(snapshot@.highlighted =~= Set::empty());
        snapshot
    }

    /// The same snapshot with `piece` standing on `square`, in place of
    /// whatever stood there.
    pub fn with_piece(self, square: SquareCoordinate, piece: PlacedPiece) -> (snapshot:
        BoardSnapshot)
        ensures
            snapshot@ == (SnapshotView { pieces: self@.pieces.insert(square@, piece), ..self@ }),
            on_board(square@),
    {
        proof {
            use_type_invariant(&self);
        }
        let index = square.index();
        let mut pieces = self.pieces;
        pieces.set(index, Some(piece));
        let snapshot = BoardSnapshot {
            pieces,
            selected: self.selected,
            highlighted: self.highlighted,
        };
        assert(snapshot@.pieces =~= self@.pieces.insert(square@, piece));
        snapshot
    }

    /// The same snapshot with `square` left empty.
    pub fn without_piece(self, square: SquareCoordinate) -> (snapshot: BoardSnapshot)
        ensures
            snapshot@ == (SnapshotView { pieces: self@.pieces.remove(square@), ..self@ }),
    {
        proof {
            use_type_invariant(&self);
        }
        let index = square.index();
        let mut pieces = self.pieces;
        pieces.set(index, None);
        let snapshot = BoardSnapshot {
            pieces,
            selected: self.selected,
            highlighted: self.highlighted,
        };
        assert(snapshot@.pieces =~= self@.pieces.remove(square@));
        snapshot
    }

    /// The same snapshot with `selected` as the selected square, or with
    /// none for `None`.
    pub fn with_selection(self, selected: Option<SquareCoordinate>) -> (snapshot: BoardSnapshot)
        ensures
            snapshot@ == (SnapshotView {
                selected: match selected {
                    Some(square) => Some(square@),
                    None => None,
                },
                ..self@
            }),
            selected matches Some(square) ==> on_board(square@),
    {
        proof {
            use_type_invariant(&self);
            if let Some(square) = selected {
                use_type_invariant(&square);
            }
        }
        BoardSnapshot { pieces: self.pieces, selected, highlighted: self.highlighted }
    }

    /// The same snapshot with `square` among the highlighted squares.
    pub fn with_highlight(self, square: SquareCoordinate) -> (snapshot: BoardSnapshot)
        ensures
            snapshot@ == (SnapshotView { highlighted: self@.highlighted.insert(square@), ..self@ }),
            on_board(square@),
    {
        proof {
            use_type_invariant(&self);
        }
        let index = square.index();
        let mut highlighted = self.highlighted;
        highlighted.set(index, true);
        let snapshot = BoardSnapshot { pieces: self.pieces, selected: self.selected, highlighted };
        assert(snapshot@.highlighted =~= self@.highlighted.insert(square@));
        snapshot
    }

    /// The same snapshot with no square highlighted.
    pub fn without_highlights(self) -> (snapshot: BoardSnapshot)
        ensures
            snapshot@ == (SnapshotView { highlighted: Set::empty(), ..self@ }),
    {
        proof {
            use_type_invariant(&self);
        }
        let mut highlighted = self.highlighted;
        let mut index: usize = 0;
        while index < 64
            invariant
                index <= 64,
                highlighted@.len() == 64,
                forall|i: int| 0 <= i < index ==> !(#[trigger] highlighted@[i]),
            decreases 64 - index,
        {
            highlighted.set(index, false);
            index = index + 1;
        }
        let snapshot = BoardSnapshot { pieces: self.pieces, selected: self.selected, highlighted };
        assert(snapshot@.highlighted =~= Set::empty());
        snapshot
    }

    /// The piece on `square`, or `None` if the square is empty.
    pub fn piece_at(&self, square: SquareCoordinate) -> (piece: Option<PlacedPiece>)
        ensures
            piece == self@.piece_at(square@),
    {
        proof {
            use_type_invariant(self);
        }
        self.pieces[square.index()]
    }

    /// The selected square, if there is one.
    pub fn selected(&self) -> (selected: Option<SquareCoordinate>)
        ensures
            match selected {
                Some(square) => self@.selected == Some(square@),
                None => self@.selected is None,
            },
    {
        proof {
            if let Some(square) = self.selected {
                use_type_invariant(&square);
            }
        }
        self.selected
    }

    /// Whether `square` is the selected square.
    pub fn is_selected(&self, square: SquareCoordinate) -> (selected: bool)
        ensures
            selected <==> self@.selected == Some(square@),
    {
        match self.selected {
            Some(chosen) => {
                proof {
                    use_type_invariant(&chosen);
                }
                chosen.file() == square.file() && chosen.rank() == square.rank()
            },
            None => false,
        }
    }

    /// Whether `square` is among the highlighted squares.
    pub fn is_highlighted(&self, square: SquareCoordinate) -> (highlighted: bool)
        ensures
            highlighted <==> self@.highlighted.contains(square@),
    {
        proof {
            use_type_invariant(self);
        }
        self.highlighted[square.index()]
    }
}

impl Clone for BoardSnapshot {
    fn clone(&self) -> (copy: BoardSnapshot)
        ensures
            copy@ == self@,
    {
        proof {
            use_type_invariant(self);
        }
        let mut pieces: Vec<Option<PlacedPiece>> = Vec::new();
        let mut highlighted: Vec<bool> = Vec::new();
        let mut index: usize = 0;
        while index < 64
            invariant
                index <= 64,
                self.pieces@.len() == 64,
                self.highlighted@.len() == 64,
                pieces@ == self.pieces@.subrange(0, index as int),
                highlighted@ == self.highlighted@.subrange(0, index as int),
            decreases 64 - index,
        {
            pieces.push(self.pieces[index]);
            highlighted.push(self.highlighted[index]);
            assert(pieces@ =~= self.pieces@.subrange(0, index + 1));
            assert(highlighted@ =~= self.highlighted@.subrange(0, index + 1));
            index = index + 1;
        }
        assert(pieces@ =~= self.pieces@);
        assert(highlighted@ =~= self.highlighted@);
        BoardSnapshot { pieces, selected: self.selected, highlighted }
    }
}

/// The view of a snapshot never speaks of a square off the board.
pub proof fn lemma_snapshot_wf(snapshot: BoardSnapshot)
    ensures
        snapshot@.wf(),
{
}

} // verus!
