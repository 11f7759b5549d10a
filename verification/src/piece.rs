//! The seven piece types and the shape of each in each orientation.
use vstd::prelude::*;
use rand::rngs::StdRng;
use rand::seq::SliceRandom;
use crate::board::{PieceBox, Square, Tint};
use crate::movement::RotIndex;

verus! {

/// The random number generator of the `rand` crate that the game draws its
/// pieces from. Nothing is known of its state.
#[verifier::external_type_specification]
#[verifier::external_body]
pub struct ExStdRng(rand::rngs::StdRng);

/// Calls `rand::seq::SliceRandom::choose` on a slice of piece types and
/// copies the chosen item out. What is assumed of it: on an empty slice it
/// returns `None`, on any other slice one of the slice's items. Which item
/// it is depends on the generator, and nothing is assumed about that.
#[verifier::external_body]
fn choose_piece_type(rng: &mut StdRng, types: &[PieceType]) -> (chosen: Option<PieceType>)
    ensures
        types@.len() == 0 ==> chosen is None,
        types@.len() > 0 ==> chosen is Some && types@.contains(chosen->0),
{
    types.choose(rng).copied()
}

/// Column of the box origin of a freshly spawned piece.
pub const INITIAL_SPAWN_X: i32 = 3;

/// Row of the box origin of a freshly spawned piece.
pub const INITIAL_SPAWN_Y: i32 = 21;

/// The seven kinds of piece.
#[derive(Debug, PartialEq, Eq, Clone, Copy, Structural)]
pub enum PieceType {
    Z,
    S,
    T,
    L,
    J,
    O,
    I,
}

/// A piece on or near the playfield. `x` is the grid column of box column 0;
/// box row 0 lies on grid row `y - 1`, and each further box row one grid row
/// lower.
#[derive(Debug, PartialEq, Eq, Clone, Copy, Structural)]
pub struct Piece {
    pub p_type: PieceType,
    pub rot_idx: RotIndex,
    pub x: i32,
    pub y: i32,
}

/// A piece with unbounded coordinates: how contracts speak of a `Piece`.
pub struct Placement {
    pub p_type: PieceType,
    pub rot_idx: RotIndex,
    pub x: int,
    pub y: int,
}

impl View for Piece {
    type V = Placement;

    open spec fn view(&self) -> Placement {
        Placement { p_type: self.p_type, rot_idx: self.rot_idx, x: self.x as int, y: self.y as int }
    }
}

impl Placement {
    /// This piece moved by `dx` columns to the right and `dy` rows up.
    pub open spec fn shifted(self, dx: int, dy: int) -> Placement {
        Placement { x: self.x + dx, y: self.y + dy, ..self }
    }

    /// This piece turned to face `rot_idx`, where it stands.
    pub open spec fn facing(self, rot_idx: RotIndex) -> Placement {
        Placement { rot_idx, ..self }
    }

    /// This piece, as it faces, put at (`x`, `y`).
    pub open spec fn moved_to(self, x: int, y: int) -> Placement {
        Placement { x, y, ..self }
    }
}

/// The four box cells, as (row, column), that a piece type fills in an
/// orientation.
pub open spec fn cells(t: PieceType, r: RotIndex) -> ((int, int), (int, int), (int, int), (int, int)) {
    match t {
        PieceType::Z => match r {
            RotIndex::Neutral | RotIndex::U => ((1, 0), (1, 1), (2, 1), (2, 2)),
            RotIndex::CW | RotIndex::CCW => ((0, 2), (1, 1), (1, 2), (2, 1)),
        },
        PieceType::S => match r {
            RotIndex::Neutral | RotIndex::U => ((1, 1), (1, 2), (2, 0), (2, 1)),
            RotIndex::CW | RotIndex::CCW => ((0, 0), (1, 0), (1, 1), (2, 1)),
        },
        PieceType::T => match r {
            RotIndex::Neutral => ((1, 0), (1, 1), (1, 2), (2, 1)),
            RotIndex::CW => ((0, 1), (1, 0), (1, 1), (2, 1)),
            RotIndex::U => ((1, 1), (2, 0), (2, 1), (2, 2)),
            RotIndex::CCW => ((0, 1), (1, 1), (1, 2), (2, 1)),
        },
        PieceType::L => match r {
            RotIndex::Neutral => ((1, 0), (1, 1), (1, 2), (2, 0)),
            RotIndex::CW => ((0, 0), (0, 1), (1, 1), (2, 1)),
            RotIndex::U => ((1, 2), (2, 0), (2, 1), (2, 2)),
            RotIndex::CCW => ((0, 1), (1, 1), (2, 1), (2, 2)),
        },
        PieceType::J => match r {
            RotIndex::Neutral => ((1, 0), (1, 1), (1, 2), (2, 2)),
            RotIndex::CW => ((0, 1), (1, 1), (2, 0), (2, 1)),
            RotIndex::U => ((1, 0), (2, 0), (2, 1), (2, 2)),
            RotIndex::CCW => ((0, 1), (0, 2), (1, 1), (2, 1)),
        },
        PieceType::O => ((1, 1), (1, 2), (2, 1), (2, 2)),
        PieceType::I => match r {
            RotIndex::Neutral | RotIndex::U => ((1, 0), (1, 1), (1, 2), (1, 3)),
            RotIndex::CW | RotIndex::CCW => ((0, 2), (1, 2), (2, 2), (3, 2)),
        },
    }
}

/// Whether the box cell at (`row`, `col`) is one of the four that the piece
/// type fills in the orientation.
pub open spec fn occupies(t: PieceType, r: RotIndex, row: int, col: int) -> bool {
    let (a, b, c, d) = cells(t, r);
    (row, col) == a || (row, col) == b || (row, col) == c || (row, col) == d
}

/// What the box of a piece type holds at (`row`, `col`) in an orientation.
pub open spec fn box_square(t: PieceType, r: RotIndex, row: int, col: int) -> Square {
    if occupies(t, r, row, col) {
        Square::Filled(Tint::Piece(t))
    } else {
        Square::Empty
    }
}

impl PieceType {
    /// A piece type drawn at random from the seven.
    pub fn random(rng: &mut StdRng) -> PieceType {
        let all = [
            PieceType::Z,
            PieceType::S,
            PieceType::T,
            PieceType::L,
            PieceType::J,
            PieceType::O,
            PieceType::I,
        ];
        match choose_piece_type(rng, &all) {
            Some(piece) => piece,
            None => {
                // `all` is not empty, so this arm is never taken.
                assert(false);
                PieceType::I
            },
        }
    }

    /// The piece of this type at its spawn position, in the neutral
    /// orientation.
    pub open spec fn spawned(self) -> Placement {
        Placement {
            p_type: self,
            rot_idx: RotIndex::Neutral,
            x: INITIAL_SPAWN_X as int,
            y: INITIAL_SPAWN_Y as int,
        }
    }

    /// A piece of this type, placed where pieces spawn.
    pub fn to_piece(self) -> (p: Piece)
        ensures
            p@ == self.spawned(),
    {
        Piece { p_type: self, rot_idx: RotIndex::Neutral, x: INITIAL_SPAWN_X, y: INITIAL_SPAWN_Y }
    }
}

impl Piece {
    /// The 4 x 4 box of this piece: its four cells filled with the piece's
    /// own tint, the rest empty.
    pub fn get_box(self) -> (bx: PieceBox)
        ensures
            forall|row: int, col: int|
                0 <= row < 4 && 0 <= col < 4 ==> #[trigger] bx.b[row][col] == box_square(
                    self.p_type,
                    self.rot_idx,
                    row,
                    col,
                ),
    {
        let o = Square::Empty;
        let x = Square::Filled(Tint::Piece(self.p_type));
        let b = match self.p_type {
            PieceType::Z => match self.rot_idx {
                RotIndex::Neutral | RotIndex::U => [
                    [o, o, o, o],
                    [x, x, o, o],
                    [o, x, x, o],
                    [o, o, o, o],
                ],
                RotIndex::CW | RotIndex::CCW => [
                    [o, o, x, o],
                    [o, x, x, o],
                    [o, x, o, o],
                    [o, o, o, o],
                ],
            },
            PieceType::S => match self.rot_idx {
                RotIndex::Neutral | RotIndex::U => [
                    [o, o, o, o],
                    [o, x, x, o],
                    [x, x, o, o],
                    [o, o, o, o],
                ],
                RotIndex::CW | RotIndex::CCW => [
                    [x, o, o, o],
                    [x, x, o, o],
                    [o, x, o, o],
                    [o, o, o, o],
                ],
            },
            PieceType::T => match self.rot_idx {
                RotIndex::Neutral => [
                    [o, o, o, o],
                    [x, x, x, o],
                    [o, x, o, o],
                    [o, o, o, o],
                ],
                RotIndex::CW => [
                    [o, x, o, o],
                    [x, x, o, o],
                    [o, x, o, o],
                    [o, o, o, o],
                ],
                RotIndex::U => [
                    [o, o, o, o],
                    [o, x, o, o],
                    [x, x, x, o],
                    [o, o, o, o],
                ],
                RotIndex::CCW => [
                    [o, x, o, o],
                    [o, x, x, o],
                    [o, x, o, o],
                    [o, o, o, o],
                ],
            },
            PieceType::L => match self.rot_idx {
                RotIndex::Neutral => [
                    [o, o, o, o],
                    [x, x, x, o],
                    [x, o, o, o],
                    [o, o, o, o],
                ],
                RotIndex::CW => [
                    [x, x, o, o],
                    [o, x, o, o],
                    [o, x, o, o],
                    [o, o, o, o],
                ],
                RotIndex::U => [
                    [o, o, o, o],
                    [o, o, x, o],
                    [x, x, x, o],
                    [o, o, o, o],
                ],
                RotIndex::CCW => [
                    [o, x, o, o],
                    [o, x, o, o],
                    [o, x, x, o],
                    [o, o, o, o],
                ],
            },
            PieceType::J => match self.rot_idx {
                RotIndex::Neutral => [
                    [o, o, o, o],
                    [x, x, x, o],
                    [o, o, x, o],
                    [o, o, o, o],
                ],
                RotIndex::CW => [
                    [o, x, o, o],
                    [o, x, o, o],
                    [x, x, o, o],
                    [o, o, o, o],
                ],
                RotIndex::U => [
                    [o, o, o, o],
                    [x, o, o, o],
                    [x, x, x, o],
                    [o, o, o, o],
                ],
                RotIndex::CCW => [
                    [o, x, x, o],
                    [o, x, o, o],
                    [o, x, o, o],
                    [o, o, o, o],
                ],
            },
            PieceType::O => [
                [o, o, o, o],
                [o, x, x, o],
                [o, x, x, o],
                [o, o, o, o],
            ],
            PieceType::I => match self.rot_idx {
                RotIndex::Neutral | RotIndex::U => [
                    [o, o, o, o],
                    [x, x, x, x],
                    [o, o, o, o],
                    [o, o, o, o],
                ],
                RotIndex::CCW | RotIndex::CW => [
                    [o, o, x, o],
                    [o, o, x, o],
                    [o, o, x, o],
                    [o, o, x, o],
                ],
            },
        };
        PieceBox { b }
    }
}

/// Every shape fills four different cells, all of them inside the 4 x 4
/// box.
pub proof fn law_shapes_fit_the_box(t: PieceType, r: RotIndex)
    ensures
        ({
            let (a, b, c, d) = cells(t, r);
            &&& 0 <= a.0 < 4 && 0 <= a.1 < 4
            &&& 0 <= b.0 < 4 && 0 <= b.1 < 4
            &&& 0 <= c.0 < 4 && 0 <= c.1 < 4
            &&& 0 <= d.0 < 4 && 0 <= d.1 < 4
            &&& a != b && a != c && a != d && b != c && b != d && c != d
        }),
        forall|row: int, col: int|
            occupies(t, r, row, col) ==> 0 <= row < 4 && 0 <= col < 4,
{
}

/// The Z, S and I pieces look the same upside down as neutral, and the same
/// turned either way; the O piece looks the same in every orientation.
pub proof fn law_shapes_repeat(r: RotIndex)
    ensures
        cells(PieceType::Z, RotIndex::U) == cells(PieceType::Z, RotIndex::Neutral),
        cells(PieceType::Z, RotIndex::CCW) == cells(PieceType::Z, RotIndex::CW),
        cells(PieceType::S, RotIndex::U) == cells(PieceType::S, RotIndex::Neutral),
        cells(PieceType::S, RotIndex::CCW) == cells(PieceType::S, RotIndex::CW),
        cells(PieceType::I, RotIndex::U) == cells(PieceType::I, RotIndex::Neutral),
        cells(PieceType::I, RotIndex::CCW) == cells(PieceType::I, RotIndex::CW),
        cells(PieceType::O, r) == cells(PieceType::O, RotIndex::Neutral),
{
}

} // verus!
