//! The index of piece images: where each one is found, and which one a piece gets.

use vstd::prelude::*;
use vstd::string::*;
use crate::piece::{slot_index, slot_piece, PieceKind, PlacedPiece, Side, PIECE_COUNT};

verus! {

/// The word for a side in the name of an image file.
pub open spec fn side_name(side: Side) -> Seq<char> {
    match side {
        Side::White => "white"@,
        Side::Black => "black"@,
    }
}

/// The word for a kind of piece in the name of an image file.
pub open spec fn kind_name(kind: PieceKind) -> Seq<char> {
    match kind {
        PieceKind::Pawn => "pawn"@,
        PieceKind::Rook => "rook"@,
        PieceKind::Knight => "knight"@,
        PieceKind::Bishop => "bishop"@,
        PieceKind::Queen => "queen"@,
        PieceKind::King => "king"@,
    }
}

/// Where the image of a piece lies below a resource root:
/// the root, a slash, the side, a hyphen, the kind, and `.png`.
pub open spec fn asset_path(root: Seq<char>, side: Side, kind: PieceKind) -> Seq<char> {
    root + "/"@ + side_name(side) + "-"@ + kind_name(kind) + ".png"@
}

/// Whether each of the first `count` images was loaded.
pub open spec fn loaded_up_to<T>(outcomes: Seq<Option<T>>, count: int) -> bool {
    count <= outcomes.len() && forall|i: int| 0 <= i < count ==> (#[trigger] outcomes[i]) is Some
}

/// Whether `slot` is the first of the twelve images that was not loaded:
/// its outcome is `None` or the list ends before it.
pub open spec fn first_missing<T>(outcomes: Seq<Option<T>>, slot: int) -> bool {
    &&& 0 <= slot < PIECE_COUNT
    &&& loaded_up_to(outcomes, slot)
    &&& (outcomes.len() <= slot || outcomes[slot] is None)
}

/// An image that could not be loaded: whose it is, and where it was looked for.
#[derive(Clone, PartialEq, Eq, Debug)]
pub struct AssetLoadError {
    pub side: Side,
    pub kind: PieceKind,
    pub path: String,
}

/// One image handle for each of the twelve pieces, in canonical order.
///
/// `T` is whatever the host's graphics backend hands out for a loaded
/// image; the index never looks inside it. The view is the sequence of the
/// twelve handles.
#[derive(Debug)]
pub struct AssetIndex<T> {
    handles: Vec<T>,
}

impl<T> View for AssetIndex<T> {
    type V = Seq<T>;

    closed spec fn view(&self) -> Seq<T> {
        self.handles@
    }
}

fn side_word(side: Side) -> (word: &'static str)
    ensures
        word@ == side_name(side),
{
    match side {
        Side::White => "white",
        Side::Black => "black",
    }
}

fn kind_word(kind: PieceKind) -> (word: &'static str)
    ensures
        word@ == kind_name(kind),
{
    match kind {
        PieceKind::Pawn => "pawn",
        PieceKind::Rook => "rook",
        PieceKind::Knight => "knight",
        PieceKind::Bishop => "bishop",
        PieceKind::Queen => "queen",
        PieceKind::King => "king",
    }
}

impl<T> AssetIndex<T> {
    /// What every value of the type meets: it holds one handle for each piece.
    #[verifier::type_invariant]
    pub open spec fn holds_twelve(self) -> bool {
        self@.len() == PIECE_COUNT
    }

    /// The handle that `lookup` returns for a piece.
    pub open spec fn spec_lookup(self, kind: PieceKind, side: Side) -> T {
        self@[slot_index(side, kind)]
    }

    /// The path of the image of one piece below `resource_root`.
    pub fn path(resource_root: &str, side: Side, kind: PieceKind) -> (path: String)
        ensures
            path@ == asset_path(resource_root@, side, kind),
    {
        let mut path = String::from_str(resource_root);
        path.append("/");
        path.append(side_word(side));
        path.append("-");
        path.append(kind_word(kind));
        path.append(".png");
        path
    }

    /// The paths of the twelve images below `resource_root`, in canonical order.
    pub fn paths(resource_root: &str) -> (paths: Vec<String>)
        ensures
            paths@.len() == PIECE_COUNT,
            forall|slot: int|
                0 <= slot < PIECE_COUNT ==> (#[trigger] paths@[slot])@ == asset_path(
                    resource_root@,
                    slot_piece(slot).side,
                    slot_piece(slot).kind,
                ),
    {
        let mut paths: Vec<String> = Vec::new();
        let mut slot: usize = 0;
        while slot < PIECE_COUNT
            invariant
                slot <= PIECE_COUNT,
                paths@.len() == slot,
                forall|done: int|
                    0 <= done < slot ==> (#[trigger] paths@[done])@ == asset_path(
                        resource_root@,
                        slot_piece(done).side,
                        slot_piece(done).kind,
                    ),
            decreases PIECE_COUNT - slot,
        {
            let piece = PlacedPiece::at_slot(slot).unwrap();
            paths.push(Self::path(resource_root, piece.side, piece.kind));
            slot = slot + 1;
        }
        paths
    }

    /// Builds the index from the outcome of loading each of the twelve
    /// images below `resource_root`, in canonical order: `Some` with the
    /// handle, or `None` where the file was missing or could not be decoded.
    ///
    /// An outcome list that stops early counts as `None` from there on, and
    /// entries past the twelfth are dropped. The index is built only if all
    /// twelve were loaded; otherwise the error names the first that was not.
    pub fn load(resource_root: &str, outcomes: Vec<Option<T>>) -> (result: Result<
        AssetIndex<T>,
        AssetLoadError,
    >)
        ensures
            match result {
                Ok(index) => {
                    &&& loaded_up_to(outcomes@, PIECE_COUNT as int)
                    &&& index@.len() == PIECE_COUNT
                    &&& forall|slot: int|
                        0 <= slot < PIECE_COUNT ==> outcomes@[slot] == Some(#[trigger] index@[slot])
                },
                Err(error) => {
                    &&& first_missing(outcomes@, slot_index(error.side, error.kind))
                    &&& error.path@ == asset_path(resource_root@, error.side, error.kind)
                },
            },
    {
        let mut slot: usize = 0;
        while slot < PIECE_COUNT
            invariant
                slot <= PIECE_COUNT,
                loaded_up_to(outcomes@, slot as int),
            decreases PIECE_COUNT - slot,
        {
            if slot >= outcomes.len() || outcomes[slot].is_none() {
                let piece = PlacedPiece::at_slot(slot).unwrap();
                return Err(
                    AssetLoadError {
                        side: piece.side,
                        kind: piece.kind,
                        path: Self::path(resource_root, piece.side, piece.kind),
                    },
                );
            }
            slot = slot + 1;
        }
        let ghost given = outcomes@;
        let mut rest = outcomes;
        rest.truncate(PIECE_COUNT);
        let mut handles: Vec<T> = Vec::new();
        while rest.len() > 0
            invariant
                loaded_up_to(given, PIECE_COUNT as int),
                rest@.len() + handles@.len() == PIECE_COUNT,
                rest@ == given.subrange(0, rest@.len() as int),
                forall|i: int|
                    0 <= i < handles@.len() ==> given[rest@.len() + i] == Some(
                        #[trigger] handles@[i],
                    ),
            decreases rest@.len(),
        {
            let ghost before = handles@;
            let last = rest.pop();
            match last {
                Some(Some(handle)) => {
                    handles.insert(0, handle);
                    assert forall|i: int| 0 <= i < handles@.len() implies given[rest@.len() + i]
                        == Some(#[trigger] handles@[i]) by {
                        if i > 0 {
                            assert(handles@[i] == before[i - 1]);
                        }
                    }
                },
                _ => {
                    assert(given[rest@.len() as int] is Some);
                    assert(false);
                },
            }
        }
        Ok(AssetIndex { handles })
    }

    /// The image handle of a piece. Every piece has one.
    pub fn lookup(&self, kind: PieceKind, side: Side) -> (handle: &T)
        ensures
            *handle == self.spec_lookup(kind, side),
            self@.len() == PIECE_COUNT,
    {
        proof {
            use_type_invariant(self);
        }
        let slot = (PlacedPiece { kind, side }).slot();
        &self.handles[slot]
    }
}

/// Looking a piece up in an index built by `load` gives the handle that was
/// supplied for that piece's place in the canonical order, the one whose
/// image lies at that piece's path.
pub proof fn lemma_lookup_matches_load<T>(
    outcomes: Seq<Option<T>>,
    index: AssetIndex<T>,
    kind: PieceKind,
    side: Side,
)
    requires
        index@.len() == PIECE_COUNT,
        forall|slot: int| 0 <= slot < PIECE_COUNT ==> outcomes[slot] == Some(#[trigger] index@[slot]),
    ensures
        outcomes[slot_index(side, kind)] == Some(index.spec_lookup(kind, side)),
{
}

/// Lookup is a function of the index and the piece: the same piece always
/// gets the same handle, and it is one of the twelve.
pub proof fn lemma_lookup_stable<T>(index: AssetIndex<T>, kind: PieceKind, side: Side, first: T, second: T)
    requires
        first == index.spec_lookup(kind, side),
        second == index.spec_lookup(kind, side),
    ensures
        first == second,
        0 <= slot_index(side, kind) < PIECE_COUNT,
        first == index@[slot_index(side, kind)],
{
}

/// At most one slot is the first missing one, so the error of a failed load
/// is determined by the outcomes.
pub proof fn lemma_first_missing_unique<T>(outcomes: Seq<Option<T>>, a: int, b: int)
    requires
        first_missing(outcomes, a),
        first_missing(outcomes, b),
    ensures
        a == b,
{
    if a < b {
        assert(outcomes[a] is Some);
    } else if b < a {
        assert(outcomes[b] is Some);
    }
}

/// A load cannot both succeed and have a first missing image.
pub proof fn lemma_complete_has_no_missing<T>(outcomes: Seq<Option<T>>, slot: int)
    requires
        loaded_up_to(outcomes, PIECE_COUNT as int),
    ensures
        !first_missing(outcomes, slot),
{
    if 0 <= slot < PIECE_COUNT {
        assert(outcomes[slot] is Some);
    }
}

} // verus!
