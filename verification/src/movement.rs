//! Player input, rotation states, and the rules that turn one tick's input
//! into a change of the active piece.
use vstd::prelude::*;
use crate::board::{in_grid, Board, Square, BOARD_HEIGHT, BOARD_WIDTH};
use crate::gravity::{Speed, SpeedCurve};
use crate::piece::{box_square, cells, occupies, Piece, PieceType, Placement};

verus! {

/// Ticks that a sideways direction must be held before it repeats.
pub const DAS_FRAMES: i32 = 16;

/// Once a held direction repeats, it moves the piece every this many ticks.
pub const DAS_PERIOD: i32 = 3;

/// A direction a player can hold.
#[derive(Debug, PartialEq, Eq, Clone, Copy, Structural)]
pub enum Direction {
    Down,
    Up,
    Right,
    Left,
}

/// A rotation a player can ask for. `CCW` and `CCW2` are two buttons with the
/// same effect.
#[derive(Debug, PartialEq, Eq, Clone, Copy, Structural)]
pub enum Rotation {
    CW,
    CCW,
    CCW2,
}

/// The four orientations of a piece.
#[derive(Debug, PartialEq, Eq, Clone, Copy, Structural)]
pub enum RotIndex {
    /// The orientation a piece spawns in.
    Neutral,
    /// One quarter turn counter-clockwise of `Neutral`.
    CCW,
    /// Upside down.
    U,
    /// One quarter turn clockwise of `Neutral`.
    CW,
}

impl Rotation {
    /// The number of clockwise quarter turns that this rotation amounts to.
    pub open spec fn quarter_turns(self) -> int {
        match self {
            Rotation::CW => 1,
            Rotation::CCW | Rotation::CCW2 => 3,
        }
    }
}

impl RotIndex {
    /// The number of clockwise quarter turns from `Neutral` to this
    /// orientation.
    pub open spec fn quarter(self) -> int {
        match self {
            RotIndex::Neutral => 0,
            RotIndex::CW => 1,
            RotIndex::U => 2,
            RotIndex::CCW => 3,
        }
    }

    /// The orientation that lies `q` clockwise quarter turns from `Neutral`.
    pub open spec fn from_quarter(q: int) -> RotIndex {
        if q % 4 == 0 {
            RotIndex::Neutral
        } else if q % 4 == 1 {
            RotIndex::CW
        } else if q % 4 == 2 {
            RotIndex::U
        } else {
            RotIndex::CCW
        }
    }

    /// This orientation after the rotation `rot`.
    pub open spec fn turned(self, rot: Rotation) -> RotIndex {
        RotIndex::from_quarter(self.quarter() + rot.quarter_turns())
    }

    /// Turns this orientation by one rotation input.
    pub fn rotate(self, rot: Rotation) -> (r: RotIndex)
        ensures
            r == self.turned(rot),
    {
        match rot {
            Rotation::CW => match self {
                RotIndex::Neutral => RotIndex::CW,
                RotIndex::CW => RotIndex::U,
                RotIndex::U => RotIndex::CCW,
                RotIndex::CCW => RotIndex::Neutral,
            },
            Rotation::CCW | Rotation::CCW2 => match self {
                RotIndex::Neutral => RotIndex::CCW,
                RotIndex::CCW => RotIndex::U,
                RotIndex::U => RotIndex::CW,
                RotIndex::CW => RotIndex::Neutral,
            },
        }
    }
}

/// What the player holds during one tick: at most one direction and at most
/// one rotation.
#[derive(Debug, PartialEq, Eq, Clone, Copy, Structural)]
pub struct Movement {
    pub dir: Option<Direction>,
    pub rot: Option<Rotation>,
}

impl Default for Movement {
    fn default() -> (m: Movement)
        ensures
            m == (Movement { dir: None, rot: None }),
    {
        Movement { dir: None, rot: None }
    }
}

/// The keys that are down during one tick.
#[derive(Debug, PartialEq, Eq, Clone, Copy, Structural)]
pub struct Keys {
    pub up: bool,
    pub left: bool,
    pub right: bool,
    pub down: bool,
    pub rotate_ccw: bool,
    pub rotate_cw: bool,
    pub rotate_ccw2: bool,
}

/// The one direction that counts among the keys held: up before left before
/// right before down.
pub open spec fn held_direction(keys: Keys) -> Option<Direction> {
    if keys.up {
        Some(Direction::Up)
    } else if keys.left {
        Some(Direction::Left)
    } else if keys.right {
        Some(Direction::Right)
    } else if keys.down {
        Some(Direction::Down)
    } else {
        None
    }
}

/// The one rotation that counts among the keys held: the first
/// counter-clockwise key before the clockwise key before the second
/// counter-clockwise key.
pub open spec fn held_rotation(keys: Keys) -> Option<Rotation> {
    if keys.rotate_ccw {
        Some(Rotation::CCW)
    } else if keys.rotate_cw {
        Some(Rotation::CW)
    } else if keys.rotate_ccw2 {
        Some(Rotation::CCW2)
    } else {
        None
    }
}

/// Reduces the keys held during a tick to the tick's input.
pub fn parse_movement(keys: &Keys) -> (m: Movement)
    ensures
        m.dir == held_direction(*keys),
        m.rot == held_rotation(*keys),
{
    let dir: Option<Direction> = if keys.up {
        Some(Direction::Up)
    } else if keys.left {
        Some(Direction::Left)
    } else if keys.right {
        Some(Direction::Right)
    } else if keys.down {
        Some(Direction::Down)
    } else {
        None
    };
    let rot: Option<Rotation> = if keys.rotate_ccw {
        Some(Rotation::CCW)
    } else if keys.rotate_cw {
        Some(Rotation::CW)
    } else if keys.rotate_ccw2 {
        Some(Rotation::CCW2)
    } else {
        None
    };
    Movement { dir, rot }
}

/// The grid square at (`row`, `col`) exists and is empty.
pub open spec fn cell_free(g: Seq<Seq<Square>>, row: int, col: int) -> bool {
    &&& 0 <= row < BOARD_HEIGHT
    &&& 0 <= col < BOARD_WIDTH
    &&& g[row][col] is Empty
}

/// The box cell (row, column) of the piece lies on an empty grid square.
pub open spec fn lands_free(p: Placement, g: Seq<Seq<Square>>, cell: (int, int)) -> bool {
    cell_free(g, p.y - 1 - cell.0, p.x + cell.1)
}

/// A piece is legal where each of its four cells lies on the playfield, on
/// an empty square.
pub open spec fn legal(p: Placement, g: Seq<Seq<Square>>) -> bool {
    let (a, b, c, d) = cells(p.p_type, p.rot_idx);
    lands_free(p, g, a) && lands_free(p, g, b) && lands_free(p, g, c) && lands_free(p, g, d)
}

/// The least of four numbers.
pub open spec fn min4(a: int, b: int, c: int, d: int) -> int {
    let ab = if a <= b { a } else { b };
    let cd = if c <= d { c } else { d };
    if ab <= cd { ab } else { cd }
}

/// The greatest of four numbers.
pub open spec fn max4(a: int, b: int, c: int, d: int) -> int {
    let ab = if a >= b { a } else { b };
    let cd = if c >= d { c } else { d };
    if ab >= cd { ab } else { cd }
}

/// The first box row that holds a filled cell.
pub open spec fn first_row(t: PieceType, r: RotIndex) -> int {
    let (a, b, c, d) = cells(t, r);
    min4(a.0, b.0, c.0, d.0)
}

/// The last box row that holds a filled cell.
pub open spec fn last_row(t: PieceType, r: RotIndex) -> int {
    let (a, b, c, d) = cells(t, r);
    max4(a.0, b.0, c.0, d.0)
}

/// The first box column that holds a filled cell.
pub open spec fn first_col(t: PieceType, r: RotIndex) -> int {
    let (a, b, c, d) = cells(t, r);
    min4(a.1, b.1, c.1, d.1)
}

/// The last box column that holds a filled cell.
pub open spec fn last_col(t: PieceType, r: RotIndex) -> int {
    let (a, b, c, d) = cells(t, r);
    max4(a.1, b.1, c.1, d.1)
}

/// The bounding box of the piece's filled cells lies on the playfield:
/// its columns within the width, its lowest row above the floor, its
/// highest row not above the top.
pub open spec fn bounds_in_grid(p: Placement) -> bool {
    &&& 0 <= p.x + first_col(p.p_type, p.rot_idx)
    &&& p.x + last_col(p.p_type, p.rot_idx) < BOARD_WIDTH
    &&& 0 < p.y - last_row(p.p_type, p.rot_idx)
    &&& p.y - first_row(p.p_type, p.rot_idx) <= BOARD_HEIGHT
}

/// The rotation that takes effect in a tick: the one held, unless it was
/// held in the tick before as well.
pub open spec fn fired_rotation(prev: Movement, cur: Movement) -> Option<Rotation> {
    if prev.rot == cur.rot {
        None
    } else {
        cur.rot
    }
}

/// Whether a sideways direction that has been held for `das_frames` ticks
/// repeats in this tick: from the charge threshold on, every third tick.
pub open spec fn shift_beat(das_frames: int) -> bool {
    das_frames >= DAS_FRAMES && (das_frames - DAS_FRAMES) % (DAS_PERIOD as int) == 0
}

/// The direction that takes effect in a tick. Down repeats in every tick. Any
/// other direction takes effect in the tick it is first held, and after that
/// only on the beat of the charge timer.
pub open spec fn fired_direction(prev: Movement, cur: Movement, das_frames: int) -> Option<
    Direction,
> {
    match cur.dir {
        None => None,
        Some(Direction::Down) => cur.dir,
        Some(_) => if prev.dir == cur.dir && !shift_beat(das_frames) {
            None
        } else {
            cur.dir
        },
    }
}

/// The step, in columns to the right and rows up, that a direction asks for.
pub open spec fn step_of(dir: Option<Direction>) -> (int, int) {
    match dir {
        Some(Direction::Down) => (0, -1),
        Some(Direction::Right) => (1, 0),
        Some(Direction::Left) => (-1, 0),
        Some(Direction::Up) | None => (0, 0),
    }
}

/// Where a rotated piece ends up. `cand` is the piece after the rotation and
/// `orig` the piece before it. A legal candidate stands. Otherwise the I
/// piece gives the rotation up; any other piece tries one column to the
/// right, then one column to the left, and gives the rotation up if neither
/// is legal.
pub open spec fn kicked(orig: Placement, cand: Placement, g: Seq<Seq<Square>>) -> Placement {
    if legal(cand, g) {
        cand
    } else if cand.p_type == PieceType::I {
        orig
    } else if legal(cand.shifted(1, 0), g) {
        cand.shifted(1, 0)
    } else if legal(cand.shifted(-1, 0), g) {
        cand.shifted(-1, 0)
    } else {
        orig
    }
}

/// The piece after one tick of input. The rotation that takes effect turns
/// the piece, then the direction that takes effect moves it. Where that is
/// illegal the piece keeps its position, turned. After a rotation the kicks
/// are tried, and a result that is illegal still goes back to the position
/// before the tick.
pub open spec fn resolved(
    prev: Movement,
    cur: Movement,
    das_frames: int,
    piece: Placement,
    g: Seq<Seq<Square>>,
) -> Placement {
    let rot = fired_rotation(prev, cur);
    let step = step_of(fired_direction(prev, cur, das_frames));
    let turned = match rot {
        Some(r) => piece.facing(piece.rot_idx.turned(r)),
        None => piece,
    };
    let moved = turned.shifted(step.0, step.1);
    let settled = if legal(moved, g) {
        moved
    } else {
        turned
    };
    if rot is Some {
        let k = kicked(piece, settled, g);
        if legal(k, g) {
            k
        } else {
            k.moved_to(piece.x, piece.y)
        }
    } else {
        settled
    }
}

/// The piece after it has dropped by up to `rows` rows, one row at a time,
/// and stopped above the first row where it would be illegal.
pub open spec fn descended(piece: Placement, g: Seq<Seq<Square>>, rows: int) -> Placement
    decreases rows,
{
    if rows <= 0 || !legal(piece.shifted(0, -1), g) {
        piece
    } else {
        descended(piece.shifted(0, -1), g, rows - 1)
    }
}

/// One step of gravity: `None` where the piece has landed, else the piece
/// where it falls to. The piece is on the floor if it cannot move down one
/// row from where it stands before the step. When the timer has reached the
/// speed's ticks the piece drops by up to the speed's rows; a piece that is
/// due to drop and does not has landed.
pub open spec fn fallen(piece: Placement, g: Seq<Seq<Square>>, speed: Speed, grav_frames: int)
    -> Option<Placement> {
    let on_floor = !legal(piece.shifted(0, -1), g);
    if grav_frames >= speed.frames {
        let dropped = descended(piece, g, speed.rows as int);
        if dropped.y == piece.y || on_floor {
            None
        } else {
            Some(dropped)
        }
    } else if on_floor {
        None
    } else {
        Some(piece)
    }
}

/// How contracts speak of a piece that may be absent.
pub open spec fn placed(piece: Option<Piece>) -> Option<Placement> {
    match piece {
        Some(p) => Some(p@),
        None => None,
    }
}

/// A piece whose bounding box lies on the playfield has all its cells on
/// it, and the other way round.
pub proof fn lemma_bounds_are_cells(p: Placement)
    ensures
        bounds_in_grid(p) == in_grid(p),
{
}

/// A legal piece has coordinates close to the playfield.
pub proof fn lemma_legal_is_near(p: Placement, g: Seq<Seq<Square>>)
    requires
        legal(p, g),
    ensures
        in_grid(p),
        -3 <= p.x <= 9,
        1 <= p.y <= 24,
{
}

/// A piece is legal if every cell of its box that it fills lies on a free
/// grid square.
proof fn lemma_free_cells_are_legal(p: Placement, g: Seq<Seq<Square>>)
    requires
        forall|row: int, col: int|
            0 <= row < 4 && 0 <= col < 4 && #[trigger] occupies(p.p_type, p.rot_idx, row, col)
                ==> lands_free(p, g, (row, col)),
    ensures
        legal(p, g),
{
    let (a, b, c, d) = cells(p.p_type, p.rot_idx);
    assert(occupies(p.p_type, p.rot_idx, a.0, a.1));
    assert(occupies(p.p_type, p.rot_idx, b.0, b.1));
    assert(occupies(p.p_type, p.rot_idx, c.0, c.1));
    assert(occupies(p.p_type, p.rot_idx, d.0, d.1));
}

/// Some cell of the given row of a box is filled.
spec fn row_used(bx: [[Square; 4]; 4], row: int) -> bool {
    bx[row][0] is Filled || bx[row][1] is Filled || bx[row][2] is Filled || bx[row][3] is Filled
}

/// Whether some cell of a row of a box is filled.
fn row_has_filled(row: &[Square; 4]) -> (any: bool)
    ensures
        any == (row[0] is Filled || row[1] is Filled || row[2] is Filled || row[3] is Filled),
{
    let mut x: usize = 0;
    while x < 4
        invariant
            x <= 4,
            forall|c: int| 0 <= c < x ==> row[c] is Empty,
        decreases 4 - x,
    {
        if matches!(row[x], Square::Filled(_)) {
            return true;
        }
        x += 1;
    }
    false
}

/// The index of the first filled cell of a row of a box, or 4.
fn row_first_filled(row: &[Square; 4]) -> (x: usize)
    ensures
        x <= 4,
        forall|c: int| 0 <= c < x ==> row[c] is Empty,
        x < 4 ==> row[x as int] is Filled,
{
    let mut x: usize = 0;
    while x < 4
        invariant
            x <= 4,
            forall|c: int| 0 <= c < x ==> row[c] is Empty,
        decreases 4 - x,
    {
        if matches!(row[x], Square::Filled(_)) {
            return x;
        }
        x += 1;
    }
    x
}

/// The index of the last filled cell of a row of a box, or 0.
fn row_last_filled(row: &[Square; 4]) -> (m: usize)
    ensures
        m < 4,
        forall|c: int| m < c < 4 ==> row[c] is Empty,
        m > 0 ==> row[m as int] is Filled,
{
    let mut m: usize = 0;
    let mut x: usize = 0;
    while x < 4
        invariant
            x <= 4,
            m < 4,
            forall|c: int| m < c < x ==> row[c] is Empty,
            m > 0 ==> row[m as int] is Filled,
        decreases 4 - x,
    {
        if matches!(row[x], Square::Filled(_)) {
            m = x;
        }
        x += 1;
    }
    m
}

/// The bounding box of the filled cells of a piece's box: its first and last
/// row, then its first and last column.
fn box_extents(bx: &[[Square; 4]; 4], t: PieceType, r: RotIndex) -> (e: (i32, i32, i32, i32))
    requires
        forall|row: int, col: int|
            0 <= row < 4 && 0 <= col < 4 ==> #[trigger] bx[row][col] == box_square(t, r, row, col),
    ensures
        e.0 == first_row(t, r),
        e.1 == last_row(t, r),
        e.2 == first_col(t, r),
        e.3 == last_col(t, r),
{
    let ghost (ca, cb, cc, cd) = cells(t, r);

    let mut first_y: usize = 0;
    while !row_has_filled(&bx[first_y])
        invariant
            first_y < 4,
            0 <= ca.0 < 4,
            row_used(*bx, ca.0),
            forall|row: int| 0 <= row < first_y ==> !row_used(*bx, row),
        decreases 4 - first_y,
    {
        first_y += 1;
    }

    let mut last_y: usize = 3;
    while !row_has_filled(&bx[last_y])
        invariant
            last_y < 4,
            0 <= ca.0 < 4,
            row_used(*bx, ca.0),
            forall|row: int| last_y < row < 4 ==> !row_used(*bx, row),
        decreases last_y,
    {
        last_y -= 1;
    }

    let mut first_x: usize = 4;
    let ghost mut first_at: int = 0;
    let mut y: usize = 0;
    while y < 4
        invariant
            y <= 4,
            first_x <= 4,
            forall|row: int, col: int|
                0 <= row < y && 0 <= col < first_x ==> (#[trigger] bx[row][col]) is Empty,
            first_x < 4 ==> 0 <= first_at < 4 && bx[first_at][first_x as int] is Filled,
        decreases 4 - y,
    {
        let x = row_first_filled(&bx[y]);
        if x < first_x {
            first_x = x;
            proof {
                first_at = y as int;
            }
        }
        y += 1;
    }
    assert(first_x < 4) by {
        // Else the cell that the shape fills in row `ca.0` would be empty.
        if first_x == 4 {
            assert(bx[ca.0][ca.1] is Empty);
        }
    }

    let mut last_x: usize = 0;
    let ghost mut last_at: int = 0;
    let mut y: usize = 0;
    while y < 4
        invariant
            y <= 4,
            last_x < 4,
            forall|row: int, col: int|
                0 <= row < y && last_x < col < 4 ==> (#[trigger] bx[row][col]) is Empty,
            last_x > 0 ==> 0 <= last_at < 4 && bx[last_at][last_x as int] is Filled,
        decreases 4 - y,
    {
        let m = row_last_filled(&bx[y]);
        if m > last_x {
            last_x = m;
            proof {
                last_at = y as int;
            }
        }
        y += 1;
    }

    assert(row_used(*bx, ca.0) && row_used(*bx, cb.0) && row_used(*bx, cc.0) && row_used(
        *bx,
        cd.0,
    ));
    assert(last_x == last_col(t, r)) by {
        if last_x > 0 {
            assert(occupies(t, r, last_at, last_x as int));
        }
    }
    (first_y as i32, last_y as i32, first_x as i32, last_x as i32)
}

/// Whether the piece may stand where it is: within the playfield and on no
/// filled square.
pub fn is_movement_legal(piece: &Piece, board: &Board) -> (ok: bool)
    ensures
        ok == legal(piece@, board@),
{
    let ghost p = piece@;
    let ghost g = board@;
    let bx = piece.get_box().b;
    let (first_y, last_y, first_x, last_x) = box_extents(&bx, piece.p_type, piece.rot_idx);
    proof {
        lemma_bounds_are_cells(p);
    }

    let min_x = first_x as i64 + piece.x as i64;
    let max_x = last_x as i64 + piece.x as i64;
    let min_y = piece.y as i64 - last_y as i64;
    let max_y = piece.y as i64 - first_y as i64;

    if min_x < 0 || max_x >= BOARD_WIDTH as i64 {
        return false;
    }
    if min_y <= 0 || max_y > BOARD_HEIGHT as i64 {
        return false;
    }

    let mut r: usize = 0;
    while r < 4
        invariant
            r <= 4,
            p == piece@,
            g == board@,
            in_grid(p),
            forall|row: int, col: int|
                0 <= row < 4 && 0 <= col < 4 ==> #[trigger] bx[row][col] == box_square(
                    p.p_type,
                    p.rot_idx,
                    row,
                    col,
                ),
            forall|row: int, col: int|
                0 <= row < r && 0 <= col < 4 && #[trigger] occupies(p.p_type, p.rot_idx, row, col)
                    ==> lands_free(p, g, (row, col)),
        decreases 4 - r,
    {
        let mut c: usize = 0;
        while c < 4
            invariant
                r < 4,
                c <= 4,
                p == piece@,
                g == board@,
                in_grid(p),
                forall|row: int, col: int|
                    0 <= row < 4 && 0 <= col < 4 ==> #[trigger] bx[row][col] == box_square(
                        p.p_type,
                        p.rot_idx,
                        row,
                        col,
                    ),
                forall|row: int, col: int|
                    0 <= row < r && 0 <= col < 4 && #[trigger] occupies(
                        p.p_type,
                        p.rot_idx,
                        row,
                        col,
                    ) ==> lands_free(p, g, (row, col)),
                forall|col: int|
                    0 <= col < c && #[trigger] occupies(p.p_type, p.rot_idx, r as int, col)
                        ==> lands_free(p, g, (r as int, col)),
            decreases 4 - c,
        {
            let sq = bx[r][c];
            if matches!(sq, Square::Filled(_)) {
                let y = piece.y - 1 - r as i32;
                let x = piece.x + c as i32;
                if matches!(board.state[y as usize][x as usize], Square::Filled(_)) {
                    return false;
                }
            }
            c += 1;
        }
        r += 1;
    }
    proof {
        lemma_free_cells_are_legal(p, g);
    }
    true
}

/// The piece moved by (`dx`, `dy`), if it is legal there.
fn legal_shift(piece: &Piece, dx: i32, dy: i32, board: &Board) -> (r: Option<Piece>)
    ensures
        placed(r) == if legal(piece@.shifted(dx as int, dy as int), board@) {
            Some(piece@.shifted(dx as int, dy as int))
        } else {
            None
        },
{
    let ghost target = piece@.shifted(dx as int, dy as int);
    match (piece.x.checked_add(dx), piece.y.checked_add(dy)) {
        (Some(x), Some(y)) => {
            let moved = Piece { p_type: piece.p_type, rot_idx: piece.rot_idx, x, y };
            if is_movement_legal(&moved, board) {
                Some(moved)
            } else {
                None
            }
        },
        _ => {
            proof {
                if legal(target, board@) {
                    lemma_legal_is_near(target, board@);
                }
            }
            None
        },
    }
}

/// Settles a rotation. `piece` is the rotated candidate and `orig_state` the
/// piece before the rotation. Returns the candidate where it is legal, else
/// the candidate one column to the right or to the left, in that order, and
/// `orig_state` where nothing fits. The I piece is never shifted.
pub fn apply_rot_kicks(orig_state: Piece, piece: &Piece, board: &Board) -> (next: Piece)
    ensures
        next@ == kicked(orig_state@, piece@, board@),
{
    if is_movement_legal(piece, board) {
        return *piece;
    }
    if piece.p_type == PieceType::I {
        return orig_state;
    }
    match legal_shift(piece, 1, 0, board) {
        Some(right) => right,
        None => match legal_shift(piece, -1, 0, board) {
            Some(left) => left,
            None => orig_state,
        },
    }
}

/// Moves the piece down as the speed curve asks at `level`, given the ticks
/// since it last dropped. Returns `None` where the piece has landed.
pub fn fall(piece: Piece, board: &Board, curve: &SpeedCurve, level: i32, grav_frames: i32) -> (r:
    Option<Piece>)
    ensures
        placed(r) == fallen(piece@, board@, curve.at(level as int), grav_frames as int),
{
    let speed = curve.speed(level);
    let ghost g = board@;
    let mut next_state = piece;
    if grav_frames >= speed.frames {
        let mut done: i32 = 0;
        while done < speed.rows
            invariant_except_break
                0 <= done,
                descended(piece@, g, speed.rows as int) == descended(
                    next_state@,
                    g,
                    speed.rows - done,
                ),
            invariant
                g == board@,
            ensures
                descended(piece@, g, speed.rows as int) == next_state@,
            decreases speed.rows - done,
        {
            match legal_shift(&next_state, 0, -1, board) {
                Some(lower) => {
                    next_state = lower;
                },
                None => {
                    break;
                },
            }
            done += 1;
        }
        if piece.y == next_state.y {
            return None;
        }
    }
    if legal_shift(&piece, 0, -1, board).is_none() {
        return None;
    }
    Some(next_state)
}

/// Resolves one tick of input on the piece: the rotation and the direction
/// that take effect, the fallback to the old position, and the kicks.
pub fn apply_movement(
    previous_movement: &Movement,
    movement: &Movement,
    das_frames: i32,
    piece: Piece,
    board: &Board,
) -> (next: Piece)
    ensures
        next@ == resolved(*previous_movement, *movement, das_frames as int, piece@, board@),
{
    let mut dir = movement.dir;
    let mut rot = movement.rot;

    // A rotation fires only in the tick in which it changes.
    if previous_movement.rot == rot {
        rot = None;
    }
    // Down repeats in every tick; the other directions only on the beat of
    // the charge timer.
    match dir {
        None => {},
        Some(Direction::Down) => {},
        Some(_) => {
            if previous_movement.dir == dir && !(das_frames >= DAS_FRAMES && (das_frames
                - DAS_FRAMES) % DAS_PERIOD == 0) {
                dir = None;
            }
        },
    }

    let mut turned = piece;
    if let Some(r) = rot {
        turned.rot_idx = piece.rot_idx.rotate(r);
    }
    let (dx, dy): (i32, i32) = match dir {
        Some(Direction::Down) => (0, -1),
        Some(Direction::Right) => (1, 0),
        Some(Direction::Left) => (-1, 0),
        Some(Direction::Up) | None => (0, 0),
    };
    let mut next_state = match legal_shift(&turned, dx, dy, board) {
        Some(moved) => moved,
        None => turned,
    };

    if rot.is_some() {
        next_state = apply_rot_kicks(piece, &next_state, board);
        if !is_movement_legal(&next_state, board) {
            next_state.x = piece.x;
            next_state.y = piece.y;
        }
    }
    next_state
}

/// A piece whose bounding box leaves the playfield, to the left or right, at
/// the floor or above the top, is illegal on every grid.
pub proof fn law_out_of_bounds_is_illegal(p: Placement, g: Seq<Seq<Square>>)
    requires
        !bounds_in_grid(p),
    ensures
        !legal(p, g),
{
}

/// Four clockwise quarter turns bring every orientation, and with it the
/// shape of every piece type, back to where it was.
pub proof fn law_four_clockwise_turns(t: PieceType, r: RotIndex)
    ensures
        r.turned(Rotation::CW).turned(Rotation::CW).turned(Rotation::CW).turned(Rotation::CW) == r,
        cells(
            t,
            r.turned(Rotation::CW).turned(Rotation::CW).turned(Rotation::CW).turned(Rotation::CW),
        ) == cells(t, r),
{
}

/// A clockwise turn and a counter-clockwise turn, by either of its two
/// inputs, undo each other, in both orders and from every orientation.
pub proof fn law_opposite_turns_cancel(r: RotIndex)
    ensures
        r.turned(Rotation::CW).turned(Rotation::CCW) == r,
        r.turned(Rotation::CW).turned(Rotation::CCW2) == r,
        r.turned(Rotation::CCW).turned(Rotation::CW) == r,
        r.turned(Rotation::CCW2).turned(Rotation::CW) == r,
        r.turned(Rotation::CCW) == r.turned(Rotation::CCW2),
{
}

/// The I piece is never kicked: its rotation stands where the rotated piece
/// is legal as it is, and is given up everywhere else.
pub proof fn law_i_piece_has_no_kicks(orig: Placement, cand: Placement, g: Seq<Seq<Square>>)
    requires
        cand.p_type == PieceType::I,
    ensures
        kicked(orig, cand, g) == if legal(cand, g) {
            cand
        } else {
            orig
        },
{
}

/// The charge gate. A sideways direction that is held as in the tick before,
/// with no rotation taking effect, moves the piece only on the beat: when
/// the charge timer has reached 16 and stands a multiple of 3 above it. On
/// the beat the piece moves one column if that is legal; off the beat it
/// stays.
pub proof fn law_charge_gate(
    prev: Movement,
    cur: Movement,
    das_frames: int,
    piece: Placement,
    g: Seq<Seq<Square>>,
)
    requires
        cur.dir == Some(Direction::Left) || cur.dir == Some(Direction::Right),
        prev.dir == cur.dir,
        prev.rot == cur.rot,
    ensures
        shift_beat(das_frames) <==> das_frames >= 16 && (das_frames - 16) % 3 == 0,
        !shift_beat(das_frames) ==> resolved(prev, cur, das_frames, piece, g) == piece,
        shift_beat(das_frames) ==> resolved(prev, cur, das_frames, piece, g) == ({
            let dx: int = if cur.dir == Some(Direction::Left) {
                -1
            } else {
                1
            };
            if legal(piece.shifted(dx, 0), g) {
                piece.shifted(dx, 0)
            } else {
                piece
            }
        }),
{
}

/// A tick of input never makes a legal piece illegal, and changes neither
/// its type nor, without a rotation, how it faces.
pub proof fn lemma_resolved_stays_legal(
    prev: Movement,
    cur: Movement,
    das_frames: int,
    piece: Placement,
    g: Seq<Seq<Square>>,
)
    requires
        legal(piece, g),
    ensures
        legal(resolved(prev, cur, das_frames, piece, g), g),
        resolved(prev, cur, das_frames, piece, g).p_type == piece.p_type,
{
}

/// Dropping keeps a piece in its column and as it faces, never raises it,
/// and keeps a legal piece legal.
pub proof fn lemma_descended(piece: Placement, g: Seq<Seq<Square>>, rows: int)
    ensures
        descended(piece, g, rows) == piece.moved_to(piece.x, descended(piece, g, rows).y),
        descended(piece, g, rows).y <= piece.y,
        legal(piece, g) ==> legal(descended(piece, g, rows), g),
        descended(piece, g, rows).y < piece.y ==> legal(descended(piece, g, rows), g),
    decreases rows,
{
    if rows > 0 && legal(piece.shifted(0, -1), g) {
        lemma_descended(piece.shifted(0, -1), g, rows - 1);
    }
}

/// A step of gravity keeps a legal piece legal, in its column and as it
/// faces.
pub proof fn lemma_fallen_stays_legal(
    piece: Placement,
    g: Seq<Seq<Square>>,
    speed: Speed,
    grav_frames: int,
)
    requires
        legal(piece, g),
    ensures
        fallen(piece, g, speed, grav_frames) matches Some(q) ==> legal(q, g) && q.p_type
            == piece.p_type,
{
    lemma_descended(piece, g, speed.rows as int);
}

} // verus!
