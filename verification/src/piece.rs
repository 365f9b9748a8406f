//! Pieces: their kind, their side, and the canonical order of the twelve.

use vstd::prelude::*;

verus! {

/// The two players.
#[derive(Clone, Copy, PartialEq, Eq, Structural, Debug)]
pub enum Side {
    White,
    Black,
}

/// The six kinds of piece, in canonical order.
#[derive(Clone, Copy, PartialEq, Eq, Structural, Debug)]
pub enum PieceKind {
    Pawn,
    Rook,
    Knight,
    Bishop,
    Queen,
    King,
}

/// A piece standing on a square.
#[derive(Clone, Copy, PartialEq, Eq, Structural, Debug)]
pub struct PlacedPiece {
    pub kind: PieceKind,
    pub side: Side,
}

/// Number of distinct pieces: six kinds for each of two sides.
pub const PIECE_COUNT: usize = 12;

/// Position of a kind among the six: pawn, rook, knight, bishop, queen, king.
pub open spec fn kind_order(kind: PieceKind) -> int {
    match kind {
        PieceKind::Pawn => 0,
        PieceKind::Rook => 1,
        PieceKind::Knight => 2,
        PieceKind::Bishop => 3,
        PieceKind::Queen => 4,
        PieceKind::King => 5,
    }
}

/// Position of a piece among the twelve: the six white kinds, then the six black ones.
pub open spec fn slot_index(side: Side, kind: PieceKind) -> int {
    match side {
        Side::White => kind_order(kind),
        Side::Black => 6 + kind_order(kind),
    }
}

/// The piece at a position of the canonical order.
pub open spec fn slot_piece(slot: int) -> PlacedPiece {
    PlacedPiece {
        kind: if slot % 6 == 0 {
            PieceKind::Pawn
        } else if slot % 6 == 1 {
            PieceKind::Rook
        } else if slot % 6 == 2 {
            PieceKind::Knight
        } else if slot % 6 == 3 {
            PieceKind::Bishop
        } else if slot % 6 == 4 {
            PieceKind::Queen
        } else {
            PieceKind::King
        },
        side: if slot < 6 {
            Side::White
        } else {
            Side::Black
        },
    }
}

impl PlacedPiece {
    /// Position of this piece in the canonical order.
    pub fn slot(&self) -> (slot: usize)
        ensures
            slot == slot_index(self.side, self.kind),
            slot < PIECE_COUNT,
    {
        let within: usize = match self.kind {
            PieceKind::Pawn => 0,
            PieceKind::Rook => 1,
            PieceKind::Knight => 2,
            PieceKind::Bishop => 3,
            PieceKind::Queen => 4,
            PieceKind::King => 5,
        };
        match self.side {
            Side::White => within,
            Side::Black => within + 6,
        }
    }

    /// The piece at position `slot` of the canonical order, if there is one.
    pub fn at_slot(slot: usize) -> (piece: Option<PlacedPiece>)
        ensures
            piece is Some <==> slot < PIECE_COUNT,
            piece matches Some(p) ==> p == slot_piece(slot as int) && slot_index(p.side, p.kind)
                == slot,
    {
        if slot >= PIECE_COUNT {
            return None;
        }
        let side = if slot < 6 {
            Side::White
        } else {
            Side::Black
        };
        let within: usize = slot % 6;
        let kind = if within == 0 {
            PieceKind::Pawn
        } else if within == 1 {
            PieceKind::Rook
        } else if within == 2 {
            PieceKind::Knight
        } else if within == 3 {
            PieceKind::Bishop
        } else if within == 4 {
            PieceKind::Queen
        } else {
            PieceKind::King
        };
        Some(PlacedPiece { kind, side })
    }
}

/// Every piece has a slot among the twelve, and taking the piece of that slot
/// gives the piece back.
pub proof fn lemma_slot_round_trip(side: Side, kind: PieceKind)
    ensures
        0 <= slot_index(side, kind) < PIECE_COUNT,
        slot_piece(slot_index(side, kind)) == (PlacedPiece { kind, side }),
{
}

/// Every slot among the twelve belongs to exactly the piece that `slot_piece` names.
pub proof fn lemma_piece_round_trip(slot: int)
    requires
        0 <= slot < PIECE_COUNT,
    ensures
        slot_index(slot_piece(slot).side, slot_piece(slot).kind) == slot,
{
}

/// Two pieces share a slot only if they are the same piece.
pub proof fn lemma_slot_index_injective(a: PlacedPiece, b: PlacedPiece)
    requires
        slot_index(a.side, a.kind) == slot_index(b.side, b.kind),
    ensures
        a == b,
{
}

} // verus!
