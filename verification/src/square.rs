//! Coordinates of the sixty-four squares.

use vstd::prelude::*;

verus! {

/// Number of files, and of ranks, on the board.
pub const BOARD_EDGE: u8 = 8;

/// Whether a `(file, rank)` pair names a square of the board.
pub open spec fn on_board(square: (int, int)) -> bool {
    0 <= square.0 < BOARD_EDGE && 0 <= square.1 < BOARD_EDGE
}

/// Position of a square when the board is walked file by file, and rank by
/// rank within a file.
pub open spec fn square_index(square: (int, int)) -> int {
    square.0 * BOARD_EDGE + square.1
}

/// The square at a position of that walk.
pub open spec fn index_square(index: int) -> (int, int) {
    (index / (BOARD_EDGE as int), index % (BOARD_EDGE as int))
}

/// A square of the board: a file and a rank, each from 0 to 7. The type
/// admits no other value. Its view is the pair `(file, rank)`.
#[derive(Clone, Copy, PartialEq, Eq, Structural, Debug)]
pub struct SquareCoordinate {
    file: u8,
    rank: u8,
}

impl View for SquareCoordinate {
    type V = (int, int);

    closed spec fn view(&self) -> (int, int) {
        (self.file as int, self.rank as int)
    }
}

impl SquareCoordinate {
    /// What every value of the type meets: it names a square of the board.
    #[verifier::type_invariant]
    pub open spec fn within_board(self) -> bool {
        on_board(self@)
    }

    /// The square with the given file and rank, if both are below eight.
    pub fn new(file: u8, rank: u8) -> (square: Option<SquareCoordinate>)
        ensures
            square is Some <==> on_board((file as int, rank as int)),
            square matches Some(s) ==> s@ == (file as int, rank as int),
    {
        if file < BOARD_EDGE && rank < BOARD_EDGE {
            Some(SquareCoordinate { file, rank })
        } else {
            None
        }
    }

    /// The file, counted from the left.
    pub fn file(&self) -> (file: u8)
        ensures
            file == self@.0,
            on_board(self@),
    {
        proof {
            use_type_invariant(self);
        }
        self.file
    }

    /// The rank, counted from the bottom.
    pub fn rank(&self) -> (rank: u8)
        ensures
            rank == self@.1,
            on_board(self@),
    {
        proof {
            use_type_invariant(self);
        }
        self.rank
    }

    /// Position of the square in the file-by-file walk of the board.
    pub fn index(&self) -> (index: usize)
        ensures
            index == square_index(self@),
            index < 64,
            on_board(self@),
    {
        proof {
            use_type_invariant(self);
        }
        self.file as usize * 8 + self.rank as usize
    }
}

/// Two squares with the same file and rank are the same square.
pub proof fn lemma_square_determined_by_view(a: SquareCoordinate, b: SquareCoordinate)
    requires
        a@ == b@,
    ensures
        a == b,
{
}

/// The walk visits each square of the board once: a square's index is below
/// sixty-four and leads back to the square.
pub proof fn lemma_square_index_round_trip(square: (int, int))
    requires
        on_board(square),
    ensures
        0 <= square_index(square) < 64,
        index_square(square_index(square)) == square,
{
}

/// Each of the sixty-four positions of the walk is a square of the board.
pub proof fn lemma_index_square_round_trip(index: int)
    requires
        0 <= index < 64,
    ensures
        on_board(index_square(index)),
        square_index(index_square(index)) == index,
{
}

} // verus!
