//! The playfield: a grid of squares, ten wide and twenty-one high, whose row 0
//! is the bottom row.
use vstd::prelude::*;
use vstd::string::StringExecFns;
use crate::piece::{box_square, cells, occupies, Piece, PieceType, Placement};

verus! {

/// Number of columns of the playfield.
pub const BOARD_WIDTH: usize = 10;

/// Number of rows of the playfield.
pub const BOARD_HEIGHT: usize = 21;

/// What a filled square looks like. The rules never read it.
#[derive(Debug, PartialEq, Eq, Clone, Copy, Structural)]
pub enum Tint {
    /// The colour of the given piece type.
    Piece(PieceType),
    /// The washed-out colour that locked squares take after the game is over.
    Mono,
}

/// One square of the playfield or of a piece's box.
#[derive(Debug, PartialEq, Eq, Clone, Copy, Structural)]
pub enum Square {
    Empty,
    Filled(Tint),
}

/// The 4 x 4 box that every piece is drawn in. Row 0 is the top row.
#[derive(Debug, Clone, Copy)]
pub struct PieceBox {
    pub b: [[Square; 4]; 4],
}

/// The playfield. `state[row][col]` is the square in the given row, counted
/// from the bottom, and column, counted from the left.
#[derive(Debug)]
pub struct Board {
    pub state: [[Square; BOARD_WIDTH]; BOARD_HEIGHT],
}

impl View for Board {
    type V = Seq<Seq<Square>>;

    /// The rows of the playfield from the bottom up, each from left to right.
    open spec fn view(&self) -> Seq<Seq<Square>> {
        Seq::new(BOARD_HEIGHT as nat, |row: int| self.state[row]@)
    }
}

/// A grid has the playfield's dimensions.
pub open spec fn grid_wf(g: Seq<Seq<Square>>) -> bool {
    &&& g.len() == BOARD_HEIGHT
    &&& forall|row: int| 0 <= row < g.len() ==> (#[trigger] g[row]).len() == BOARD_WIDTH
}

/// Every square of the row is filled.
pub open spec fn row_full(row: Seq<Square>) -> bool {
    forall|col: int| 0 <= col < row.len() ==> row[col] is Filled
}

/// The test that a row survives a line clear.
pub open spec fn not_full() -> spec_fn(Seq<Square>) -> bool {
    |row: Seq<Square>| !row_full(row)
}

/// A row of the playfield's width with no filled square.
pub open spec fn empty_row() -> Seq<Square> {
    Seq::new(BOARD_WIDTH as nat, |col: int| Square::Empty)
}

/// The playfield with no filled square.
pub open spec fn empty_grid() -> Seq<Seq<Square>> {
    Seq::new(BOARD_HEIGHT as nat, |row: int| empty_row())
}

/// The number of full rows of a grid.
pub open spec fn full_rows(g: Seq<Seq<Square>>) -> int {
    g.len() - g.filter(not_full()).len()
}

/// The grid after a line clear: the rows that are not full, in their order,
/// moved down to close every gap, and as many empty rows on top as were
/// removed.
pub open spec fn cleared(g: Seq<Seq<Square>>) -> Seq<Seq<Square>> {
    g.filter(not_full()) + Seq::new(full_rows(g) as nat, |i: int| empty_row())
}

/// No square of the grid is filled.
pub open spec fn grid_empty(g: Seq<Seq<Square>>) -> bool {
    forall|row: int, col: int|
        0 <= row < g.len() && 0 <= col < g[row].len() ==> (#[trigger] g[row][col]) is Empty
}

/// Whether the piece fills the grid square at (`row`, `col`).
pub open spec fn covers(p: Placement, row: int, col: int) -> bool {
    occupies(p.p_type, p.rot_idx, p.y - 1 - row, col - p.x)
}

/// Whether the box cell (row, column) of the piece lies on the playfield.
pub open spec fn cell_in_grid(p: Placement, cell: (int, int)) -> bool {
    &&& 0 <= p.y - 1 - cell.0 < BOARD_HEIGHT
    &&& 0 <= p.x + cell.1 < BOARD_WIDTH
}

/// All four cells of the piece lie on the playfield.
pub open spec fn in_grid(p: Placement) -> bool {
    let (a, b, c, d) = cells(p.p_type, p.rot_idx);
    cell_in_grid(p, a) && cell_in_grid(p, b) && cell_in_grid(p, c) && cell_in_grid(p, d)
}

/// The grid with the piece's four cells written into it, in the piece's own
/// tint. Every other square is as it was.
pub open spec fn merged(g: Seq<Seq<Square>>, p: Placement) -> Seq<Seq<Square>> {
    Seq::new(
        BOARD_HEIGHT as nat,
        |row: int|
            Seq::new(
                BOARD_WIDTH as nat,
                |col: int|
                    if covers(p, row, col) {
                        Square::Filled(Tint::Piece(p.p_type))
                    } else {
                        g[row][col]
                    },
            ),
    )
}

/// A square after the game is over: filled squares lose their colour.
pub open spec fn mono_square(s: Square) -> Square {
    match s {
        Square::Empty => Square::Empty,
        Square::Filled(_) => Square::Filled(Tint::Mono),
    }
}

/// How many rows, from the bottom, have lost their colour once the game has
/// been over for `mono_frames` ticks: one more row every ten ticks.
pub open spec fn mono_rows(mono_frames: int) -> int {
    if mono_frames < 10 {
        0
    } else if mono_frames / 10 >= BOARD_HEIGHT as int {
        BOARD_HEIGHT as int
    } else {
        mono_frames / 10
    }
}

/// The grid with its lowest `rows` rows drained of colour.
pub open spec fn monoed(g: Seq<Seq<Square>>, rows: int) -> Seq<Seq<Square>> {
    Seq::new(
        BOARD_HEIGHT as nat,
        |row: int|
            if row < rows {
                Seq::new(BOARD_WIDTH as nat, |col: int| mono_square(g[row][col]))
            } else {
                g[row]
            },
    )
}

/// The text of one row: `X` for a filled square, `.` for an empty one, and a
/// line feed at the end.
pub open spec fn row_text(row: Seq<Square>) -> Seq<char> {
    Seq::new(
        row.len(),
        |col: int|
            if row[col] is Filled {
                'X'
            } else {
                '.'
            },
    ).push('\n')
}

/// The text of a grid: one line for each row, the top row first.
pub open spec fn grid_text(g: Seq<Seq<Square>>) -> Seq<char>
    decreases g.len(),
{
    if g.len() == 0 {
        Seq::empty()
    } else {
        row_text(g.last()) + grid_text(g.drop_last())
    }
}

/// Clearing lines never changes the number of rows.
pub proof fn lemma_cleared_keeps_height(g: Seq<Seq<Square>>)
    ensures
        cleared(g).len() == g.len(),
        0 <= full_rows(g) <= g.len(),
{
    g.lemma_filter_len(not_full());
}

/// Filtering one row further either appends that row or leaves the result
/// as it was.
proof fn lemma_filter_next(g: Seq<Seq<Square>>, y: int)
    requires
        0 <= y < g.len(),
    ensures
        g.subrange(0, y + 1).filter(not_full()) == if row_full(g[y]) {
            g.subrange(0, y).filter(not_full())
        } else {
            g.subrange(0, y).filter(not_full()).push(g[y])
        },
{
    reveal(Seq::filter);
    assert(g.subrange(0, y + 1).drop_last() =~= g.subrange(0, y));
}

/// The views of a sequence of rows.
pub open spec fn rows_of(rows: Seq<[Square; BOARD_WIDTH]>) -> Seq<Seq<Square>> {
    Seq::new(rows.len(), |i: int| rows[i]@)
}

/// Whether every square of a row of the playfield is filled.
fn row_is_full(row: &[Square; BOARD_WIDTH]) -> (full: bool)
    ensures
        full == row_full(row@),
{
    let mut col: usize = 0;
    while col < BOARD_WIDTH
        invariant
            col <= BOARD_WIDTH,
            forall|c: int| 0 <= c < col ==> row@[c] is Filled,
        decreases BOARD_WIDTH - col,
    {
        if matches!(row[col], Square::Empty) {
            return false;
        }
        col += 1;
    }
    true
}

impl Default for Board {
    /// The empty playfield.
    fn default() -> (b: Board)
        ensures
            b@ == empty_grid(),
    {
        let b = Board { state: [[Square::Empty; 10]; 21] };
        assert(b@ =~~= empty_grid());
        b
    }
}

impl Board {
    /// Removes every full row at once, moves the rows above down, and fills
    /// up with empty rows. Returns how many rows were removed.
    pub fn clear_lines(&mut self) -> (lines: i32)
        ensures
            final(self)@ == cleared(old(self)@),
            lines == full_rows(old(self)@),
    {
        let ghost before = self@;
        let mut kept: Vec<[Square; BOARD_WIDTH]> = Vec::new();
        let mut y: usize = 0;
        while y < BOARD_HEIGHT
            invariant
                y <= BOARD_HEIGHT,
                self@ == before,
                rows_of(kept@) == before.subrange(0, y as int).filter(not_full()),
            decreases BOARD_HEIGHT - y,
        {
            proof {
                lemma_filter_next(before, y as int);
            }
            if !row_is_full(&self.state[y]) {
                kept.push(self.state[y]);
            }
            y += 1;
        }
        assert(before.subrange(0, BOARD_HEIGHT as int) =~= before);
        proof {
            before.lemma_filter_len(not_full());
        }
        let n = kept.len();
        let mut y: usize = 0;
        while y < BOARD_HEIGHT
            invariant
                y <= BOARD_HEIGHT,
                n == kept@.len(),
                n <= BOARD_HEIGHT,
                before.len() == BOARD_HEIGHT,
                rows_of(kept@) == before.filter(not_full()),
                forall|row: int| 0 <= row < y ==> self@[row] == cleared(before)[row],
            decreases BOARD_HEIGHT - y,
        {
            if y < n {
                self.state[y] = kept[y];
            } else {
                self.state[y] = [Square::Empty; 10];
            }
            y += 1;
        }
        (BOARD_HEIGHT - n) as i32
    }

    /// Whether no square of the playfield is filled.
    pub fn is_empty(&self) -> (empty: bool)
        ensures
            empty == grid_empty(self@),
    {
        let mut row: usize = 0;
        while row < BOARD_HEIGHT
            invariant
                row <= BOARD_HEIGHT,
                forall|r: int, c: int|
                    0 <= r < row && 0 <= c < BOARD_WIDTH ==> (#[trigger] self@[r][c]) is Empty,
            decreases BOARD_HEIGHT - row,
        {
            let mut col: usize = 0;
            while col < BOARD_WIDTH
                invariant
                    row < BOARD_HEIGHT,
                    col <= BOARD_WIDTH,
                    forall|r: int, c: int|
                        0 <= r < row && 0 <= c < BOARD_WIDTH ==> (#[trigger] self@[r][c]) is Empty,
                    forall|c: int| 0 <= c < col ==> (#[trigger] self@[row as int][c]) is Empty,
                decreases BOARD_WIDTH - col,
            {
                if matches!(self.state[row][col], Square::Filled(_)) {
                    return false;
                }
                col += 1;
            }
            row += 1;
        }
        true
    }

    /// Writes the filled cells of the piece into the playfield. The squares
    /// under the piece's empty cells stay as they are.
    fn place(&mut self, piece: Piece)
        requires
            in_grid(piece@),
        ensures
            final(self)@ == merged(old(self)@, piece@),
    {
        let ghost before = self@;
        let ghost p = piece@;
        let bx = piece.get_box().b;
        let mut r: usize = 0;
        while r < 4
            invariant
                r <= 4,
                p == piece@,
                in_grid(p),
                forall|row: int, col: int|
                    0 <= row < 4 && 0 <= col < 4 ==> #[trigger] bx[row][col] == box_square(
                        p.p_type,
                        p.rot_idx,
                        row,
                        col,
                    ),
                forall|row: int, col: int|
                    0 <= row < BOARD_HEIGHT && 0 <= col < BOARD_WIDTH ==> #[trigger] self@[row][col]
                        == if covers(p, row, col) && p.y - 1 - row < r {
                        Square::Filled(Tint::Piece(p.p_type))
                    } else {
                        before[row][col]
                    },
            decreases 4 - r,
        {
            let mut c: usize = 0;
            while c < 4
                invariant
                    r < 4,
                    c <= 4,
                    p == piece@,
                    in_grid(p),
                    forall|row: int, col: int|
                        0 <= row < 4 && 0 <= col < 4 ==> #[trigger] bx[row][col] == box_square(
                            p.p_type,
                            p.rot_idx,
                            row,
                            col,
                        ),
                    forall|row: int, col: int|
                        0 <= row < BOARD_HEIGHT && 0 <= col < BOARD_WIDTH
                            ==> #[trigger] self@[row][col] == if covers(p, row, col) && (p.y - 1
                            - row < r || (p.y - 1 - row == r && col - p.x < c)) {
                            Square::Filled(Tint::Piece(p.p_type))
                        } else {
                            before[row][col]
                        },
                decreases 4 - c,
            {
                let sq = bx[r][c];
                if matches!(sq, Square::Filled(_)) {
                    let y = piece.y - 1 - r as i32;
                    let x = piece.x + c as i32;
                    self.state[y as usize][x as usize] = sq;
                }
                c += 1;
            }
            r += 1;
        }
        assert(self@ =~~= merged(before, p));
    }

    /// Merges the piece into the playfield, then clears the full rows.
    /// Returns how many rows were cleared.
    pub fn lock_piece(&mut self, piece: Piece) -> (lines: i32)
        requires
            in_grid(piece@),
        ensures
            final(self)@ == cleared(merged(old(self)@, piece@)),
            lines == full_rows(merged(old(self)@, piece@)),
    {
        self.place(piece);
        self.clear_lines()
    }

    /// Drains the colour from the lowest rows of the playfield: one more row
    /// for every ten ticks that the game has been over.
    pub fn monoify(&mut self, mono_frames: i32)
        ensures
            final(self)@ == monoed(old(self)@, mono_rows(mono_frames as int)),
    {
        let ghost before = self@;
        let rows: usize = if mono_frames < 10 {
            0
        } else if mono_frames / 10 >= 21 {
            BOARD_HEIGHT
        } else {
            (mono_frames / 10) as usize
        };
        let mut y: usize = 0;
        while y < rows
            invariant
                y <= rows <= BOARD_HEIGHT,
                grid_wf(before),
                forall|row: int, col: int|
                    0 <= row < BOARD_HEIGHT && 0 <= col < BOARD_WIDTH ==> #[trigger] self@[row][col]
                        == if row < y {
                        mono_square(before[row][col])
                    } else {
                        before[row][col]
                    },
            decreases rows - y,
        {
            let mut x: usize = 0;
            while x < BOARD_WIDTH
                invariant
                    y < rows <= BOARD_HEIGHT,
                    x <= BOARD_WIDTH,
                    grid_wf(before),
                    forall|row: int, col: int|
                        0 <= row < BOARD_HEIGHT && 0 <= col < BOARD_WIDTH
                            ==> #[trigger] self@[row][col] == if row < y || (row == y && col < x) {
                            mono_square(before[row][col])
                        } else {
                            before[row][col]
                        },
                decreases BOARD_WIDTH - x,
            {
                if matches!(self.state[y][x], Square::Filled(_)) {
                    self.state[y][x] = Square::Filled(Tint::Mono);
                }
                x += 1;
            }
            y += 1;
        }
        assert(self@ =~~= monoed(before, rows as int));
    }

    /// The playfield as text, the top row first: `X` for a filled square,
    /// `.` for an empty one, one line for each row.
    pub fn render(&self) -> (text: String)
        ensures
            text@ == grid_text(self@),
    {
        let ghost g = self@;
        let mut text = String::new();
        let mut y: usize = BOARD_HEIGHT;
        assert(g.subrange(0, BOARD_HEIGHT as int) =~= g);
        while y > 0
            invariant
                y <= BOARD_HEIGHT,
                g == self@,
                text@ + grid_text(g.subrange(0, y as int)) == grid_text(g),
            decreases y,
        {
            y -= 1;
            let ghost start = text@;
            let ghost row = g[y as int];
            assert(g.subrange(0, y + 1).drop_last() =~= g.subrange(0, y as int));
            let mut x: usize = 0;
            while x < BOARD_WIDTH
                invariant
                    y < BOARD_HEIGHT,
                    x <= BOARD_WIDTH,
                    g == self@,
                    row == g[y as int],
                    text@ == start + Seq::new(
                        x as nat,
                        |col: int|
                            if row[col] is Filled {
                                'X'
                            } else {
                                '.'
                            },
                    ),
                decreases BOARD_WIDTH - x,
            {
                proof {
                    reveal_strlit("X");
                    reveal_strlit(".");
                }
                if matches!(self.state[y][x], Square::Filled(_)) {
                    text.append("X");
                } else {
                    text.append(".");
                }
                x += 1;
            }
            proof {
                reveal_strlit("\n");
            }
            text.append("\n");
        }
        text
    }
}

/// A line clear removes exactly the full rows: what is left, from the bottom
/// up, is the rows that were not full, in the order they had, and above them
/// only empty rows. The number of rows stays the same, and none of them is
/// full.
pub proof fn law_clear_lines(g: Seq<Seq<Square>>)
    requires
        grid_wf(g),
    ensures
        grid_wf(cleared(g)),
        cleared(g).subrange(0, g.len() - full_rows(g)) == g.filter(not_full()),
        forall|row: int| g.len() - full_rows(g) <= row < g.len() ==> cleared(g)[row] == empty_row(),
        forall|row: int| 0 <= row < g.len() ==> !row_full(#[trigger] cleared(g)[row]),
        forall|row: int| 0 <= row < g.len() && !row_full(g[row]) ==> cleared(g).contains(g[row]),
{
    broadcast use Seq::lemma_filter_len, Seq::lemma_filter_pred, Seq::lemma_filter_contains;
    let kept = g.filter(not_full());
    assert(empty_row()[0] is Empty);
    assert forall|row: int| 0 <= row < g.len() implies (#[trigger] cleared(g)[row]).len()
        == BOARD_WIDTH && !row_full(cleared(g)[row]) by {
        if row < kept.len() {
            g.lemma_filter_contains_rev(not_full(), kept[row]);
        }
    }
    assert forall|row: int| 0 <= row < g.len() && !row_full(g[row]) implies cleared(g).contains(
        g[row],
    ) by {
        assert(kept.contains(g[row]));
        let i = choose|i: int| 0 <= i < kept.len() && kept[i] == g[row];
        assert(cleared(g)[i] == g[row]);
    }
}

/// Locking a piece changes only the squares under the piece's filled cells:
/// before the line clear, every other square of the playfield is what it
/// was.
pub proof fn law_lock_keeps_uncovered(g: Seq<Seq<Square>>, p: Placement, row: int, col: int)
    requires
        grid_wf(g),
        0 <= row < BOARD_HEIGHT,
        0 <= col < BOARD_WIDTH,
        !covers(p, row, col),
    ensures
        merged(g, p)[row][col] == g[row][col],
{
}

/// Every playfield has twenty-one rows of ten squares, whatever was done to
/// it.
pub proof fn law_board_keeps_its_size(board: Board)
    ensures
        grid_wf(board@),
{
}

} // verus!
