//! The game itself: the state that is carried from tick to tick, the draw of
//! the next piece, and the step that one tick of input makes.
use vstd::prelude::*;
use rand::rngs::StdRng;
use std::collections::VecDeque;
use crate::board::{
    cleared, empty_grid, full_rows, grid_empty, lemma_cleared_keeps_height, merged, mono_rows,
    monoed, Board, Square, BOARD_HEIGHT,
};
use crate::gravity::{speed_at, Speed, SpeedCurve, SpeedStep};
use crate::movement::{
    apply_movement, fall, fallen, is_movement_legal, legal, lemma_fallen_stays_legal,
    lemma_descended, lemma_legal_is_near, lemma_resolved_stays_legal, resolved, Direction,
    Movement, Rotation,
};
use crate::piece::{Piece, PieceType, Placement};
use crate::scoring::{
    graded, level_after_lock, line_clear_points, score_delta, update_record, GMRequirements,
    Grade, PlayerRecord,
};

verus! {

/// Ticks in a second.
pub const FPS: u32 = 60;

/// Ticks between a lock that cleared no line and the next piece.
pub const ARE_FRAMES: i32 = 30;

/// Ticks that a landed piece may still be moved before it locks.
pub const LOCK_DELAY_FRAMES: i32 = 30;

/// Ticks between a lock that cleared a line and the next piece.
pub const LINE_CLEAR_FRAMES: i32 = 41;

/// Draws that are made to find a piece type that was not seen lately.
pub const TRIES: i32 = 4;

/// Rounds of draws that are made on level 0 to find a piece type that may
/// open a game.
pub const OPENING_ROUNDS: i32 = 16;

/// The level that a new game starts on.
pub const START_LEVEL: i32 = 500;

/// A piece is in play.
#[derive(Debug, PartialEq, Eq, Clone, Copy, Structural)]
pub struct ActiveState {
    pub piece: Piece,
    /// Ticks in a row that the piece has been on the floor.
    pub lock_frames: i32,
    /// Ticks that the sideways direction has been held: the charge timer.
    pub das_frames: i32,
    /// Ticks that down has been held since the piece spawned.
    pub down_frames: i32,
    /// Ticks since the piece last dropped.
    pub gravity_frames: i32,
}

/// A piece has locked and the next one is not in play yet.
#[derive(Debug, PartialEq, Eq, Clone, Copy, Structural)]
pub struct WaitingState {
    pub waiting_frames: i32,
    pub das_frames: i32,
    pub did_clear_line: bool,
}

/// The game is over.
#[derive(Debug, PartialEq, Eq, Clone, Copy, Structural)]
pub struct GameOverState {
    pub mono_frames: i32,
}

/// The three states of a game.
#[derive(Debug, PartialEq, Eq, Clone, Copy, Structural)]
pub enum State {
    Active(ActiveState),
    Waiting(WaitingState),
    GameOver(GameOverState),
}

/// A game in progress.
#[derive(Debug)]
pub struct GameState {
    pub state: State,
    /// The four piece types that were dealt last, the oldest first.
    pub last_seen: VecDeque<PieceType>,
    /// The piece type that is dealt next.
    pub next_piece: PieceType,
    pub rng: StdRng,
    pub level: i32,
    pub current_combo: i32,
    pub player_record: PlayerRecord,
    pub board: Board,
    /// The input of the last tick.
    pub movement: Movement,
    pub curve: SpeedCurve,
}

/// How contracts speak of an `ActiveState`.
pub struct ActiveModel {
    pub piece: Placement,
    pub lock_frames: int,
    pub das_frames: int,
    pub down_frames: int,
    pub gravity_frames: int,
}

/// How contracts speak of a `WaitingState`.
pub struct WaitingModel {
    pub waiting_frames: int,
    pub das_frames: int,
    pub did_clear_line: bool,
}

/// How contracts speak of a `GameOverState`.
pub struct GameOverModel {
    pub mono_frames: int,
}

/// How contracts speak of a `State`.
pub enum StateModel {
    Active(ActiveModel),
    Waiting(WaitingModel),
    GameOver(GameOverModel),
}

/// How contracts speak of a `GameState`: all of it but the random number
/// generator, with unbounded numbers.
pub struct GameModel {
    pub state: StateModel,
    pub last_seen: Seq<PieceType>,
    pub next_piece: PieceType,
    pub level: int,
    pub current_combo: int,
    pub score: int,
    pub grade: Grade,
    pub gm_requirements: GMRequirements,
    pub start_time: int,
    pub board: Seq<Seq<Square>>,
    pub movement: Movement,
    pub base: Speed,
    pub steps: Seq<SpeedStep>,
}

impl View for ActiveState {
    type V = ActiveModel;

    open spec fn view(&self) -> ActiveModel {
        ActiveModel {
            piece: self.piece@,
            lock_frames: self.lock_frames as int,
            das_frames: self.das_frames as int,
            down_frames: self.down_frames as int,
            gravity_frames: self.gravity_frames as int,
        }
    }
}

impl View for WaitingState {
    type V = WaitingModel;

    open spec fn view(&self) -> WaitingModel {
        WaitingModel {
            waiting_frames: self.waiting_frames as int,
            das_frames: self.das_frames as int,
            did_clear_line: self.did_clear_line,
        }
    }
}

impl View for GameOverState {
    type V = GameOverModel;

    open spec fn view(&self) -> GameOverModel {
        GameOverModel { mono_frames: self.mono_frames as int }
    }
}

impl View for State {
    type V = StateModel;

    open spec fn view(&self) -> StateModel {
        match *self {
            State::Active(a) => StateModel::Active(a@),
            State::Waiting(w) => StateModel::Waiting(w@),
            State::GameOver(o) => StateModel::GameOver(o@),
        }
    }
}

impl View for GameState {
    type V = GameModel;

    open spec fn view(&self) -> GameModel {
        GameModel {
            state: self.state@,
            last_seen: self.last_seen@,
            next_piece: self.next_piece,
            level: self.level as int,
            current_combo: self.current_combo as int,
            score: self.player_record.score as int,
            grade: self.player_record.grade,
            gm_requirements: self.player_record.gm_requirements,
            start_time: self.player_record.start_time as int,
            board: self.board@,
            movement: self.movement,
            base: self.curve.base,
            steps: self.curve.steps@,
        }
    }
}

/// Whether a piece type may not open a game.
pub open spec fn poor_opener(piece: PieceType) -> bool {
    piece == PieceType::S || piece == PieceType::Z || piece == PieceType::O
}

/// The charge timer after a tick: one more while the same sideways
/// direction is held as in the tick before, else zero.
pub open spec fn charged(prev: Movement, cur: Movement, das_frames: int) -> int {
    match cur.dir {
        Some(Direction::Left) | Some(Direction::Right) => if prev.dir == cur.dir {
            das_frames + 1
        } else {
            0
        },
        _ => 0,
    }
}

/// The level after a piece has spawned: one more, except on the levels 998
/// and those that end in 99, where only a line clear leads on.
pub open spec fn level_after_spawn(level: int) -> int {
    if level != 998 && level % 100 != 99 {
        level + 1
    } else {
        level
    }
}

/// The piece of type `t` as it spawns on the grid while the rotation `held`
/// is held: turned once by it, as far as the kicks allow.
pub open spec fn spawn_piece(t: PieceType, held: Option<Rotation>, g: Seq<Seq<Square>>)
    -> Placement {
    resolved(
        Movement { dir: None, rot: None },
        Movement { dir: None, rot: held },
        0,
        t.spawned(),
        g,
    )
}

/// The piece after a step of gravity: where it fell to, or where it was if
/// it has landed.
pub open spec fn settled(piece: Placement, g: Seq<Seq<Square>>, speed: Speed, grav_frames: int)
    -> Placement {
    match fallen(piece, g, speed, grav_frames) {
        Some(lower) => lower,
        None => piece,
    }
}

/// Whether a wait is over: after 41 ticks where the lock before it cleared a
/// line, after 30 ticks where it did not.
pub open spec fn spawn_due(w: WaitingModel) -> bool {
    if w.did_clear_line {
        w.waiting_frames >= LINE_CLEAR_FRAMES
    } else {
        w.waiting_frames >= ARE_FRAMES
    }
}

/// Whether the piece locks at the end of a tick: when the lock timer has run
/// out, or as soon as the piece is on the floor while down is held.
pub open spec fn lock_due(a: ActiveModel, cur: Movement) -> bool {
    a.lock_frames >= LOCK_DELAY_FRAMES || (a.lock_frames > 0 && cur.dir == Some(Direction::Down))
}

impl GameModel {
    /// The speed of the game's curve at a level.
    pub open spec fn speed(self, level: int) -> Speed {
        speed_at(self.base, self.steps, level)
    }

    /// The piece in play and its timers at the end of a tick, before it is
    /// decided whether the piece locks. `self.movement` is the input of the
    /// tick and `prev` that of the tick before. Gravity acts once, then the
    /// input, then gravity again: a piece that falls has its lock timer set
    /// back, and its gravity timer too if it dropped; a piece that has landed
    /// has its lock timer advanced.
    pub open spec fn advanced(self, a: ActiveModel, prev: Movement) -> ActiveModel {
        let speed = self.speed(self.level);
        let first = settled(a.piece, self.board, speed, a.gravity_frames);
        let steered = resolved(prev, self.movement, a.das_frames, first, self.board);
        let down_frames = if self.movement.dir == Some(Direction::Down) {
            a.down_frames + 1
        } else {
            a.down_frames
        };
        let das_frames = if self.movement.dir == Some(Direction::Down) {
            a.das_frames
        } else {
            charged(prev, self.movement, a.das_frames)
        };
        match fallen(steered, self.board, speed, a.gravity_frames) {
            Some(lower) => ActiveModel {
                piece: lower,
                lock_frames: 0,
                das_frames,
                down_frames,
                gravity_frames: if lower.y == steered.y {
                    a.gravity_frames + 1
                } else {
                    1
                },
            },
            None => ActiveModel {
                piece: steered,
                lock_frames: a.lock_frames + 1,
                das_frames,
                down_frames,
                gravity_frames: a.gravity_frames,
            },
        }
    }

    /// The game after the piece has locked: the piece is merged into the
    /// playfield and the full rows are cleared; the combo grows by one if a
    /// row was cleared and falls to zero if none was; the score grows by what
    /// the lock is worth, the level by the rows cleared, and the grade
    /// follows the score; the game waits for the next piece.
    pub open spec fn locked(self, piece: Placement, down_frames: int) -> GameModel {
        let with_piece = merged(self.board, piece);
        let lines = full_rows(with_piece);
        let board = cleared(with_piece);
        let current_combo = if lines > 0 {
            self.current_combo + 1
        } else {
            0
        };
        let score = self.score + score_delta(
            self.level,
            lines,
            down_frames,
            current_combo,
            grid_empty(board),
        );
        GameModel {
            state: StateModel::Waiting(
                WaitingModel { waiting_frames: 0, das_frames: 0, did_clear_line: lines > 0 },
            ),
            board,
            current_combo,
            score,
            level: level_after_lock(self.level, lines),
            grade: graded(score, self.gm_requirements),
            ..self
        }
    }

    /// A tick with a piece in play. A piece that is illegal where it stands
    /// ends the game. Else the piece is advanced, and locks if that is due.
    pub open spec fn step_active(self, a: ActiveModel, prev: Movement) -> GameModel {
        if !legal(a.piece, self.board) {
            GameModel { state: StateModel::GameOver(GameOverModel { mono_frames: 0 }), ..self }
        } else {
            let next = self.advanced(a, prev);
            if lock_due(next, self.movement) {
                self.locked(next.piece, next.down_frames)
            } else {
                GameModel { state: StateModel::Active(next), ..self }
            }
        }
    }

    /// The game after the next piece has been dealt, and the piece as it
    /// comes into play. The piece type that was up next joins the four last
    /// seen and the oldest of them leaves; `drawn` is up next from now on;
    /// the level advances; the piece spawns turned by the rotation held, and
    /// gravity acts on it once as though it were due.
    pub open spec fn dealt(self, drawn: PieceType) -> (GameModel, Placement) {
        let level = level_after_spawn(self.level);
        let spawned = spawn_piece(self.next_piece, self.movement.rot, self.board);
        (
            GameModel {
                last_seen: self.last_seen.push(self.next_piece).drop_first(),
                next_piece: drawn,
                level,
                ..self
            },
            settled(spawned, self.board, self.speed(level), 1),
        )
    }

    /// A tick between two pieces. The charge timer follows the input. When
    /// the wait is over the next piece comes into play; else the wait goes
    /// on.
    pub open spec fn step_waiting(self, w: WaitingModel, prev: Movement, drawn: PieceType)
        -> GameModel {
        let das_frames = charged(prev, self.movement, w.das_frames);
        if spawn_due(w) {
            let (game, piece) = self.dealt(drawn);
            GameModel {
                state: StateModel::Active(
                    ActiveModel {
                        piece,
                        lock_frames: 0,
                        das_frames,
                        down_frames: 0,
                        gravity_frames: 0,
                    },
                ),
                ..game
            }
        } else {
            GameModel {
                state: StateModel::Waiting(
                    WaitingModel {
                        waiting_frames: w.waiting_frames + 1,
                        das_frames,
                        did_clear_line: w.did_clear_line,
                    },
                ),
                ..self
            }
        }
    }

    /// A tick after the game is over: the playfield goes on losing its
    /// colour from the bottom up.
    pub open spec fn step_game_over(self, o: GameOverModel) -> GameModel {
        GameModel {
            state: StateModel::GameOver(GameOverModel { mono_frames: o.mono_frames + 1 }),
            board: monoed(self.board, mono_rows(o.mono_frames + 1)),
            ..self
        }
    }

    /// The game after one tick with the given input. `drawn` is the piece
    /// type that the randomizer yields if the tick deals a piece.
    pub open spec fn step(self, input: Movement, drawn: PieceType) -> GameModel {
        let now = GameModel { movement: input, ..self };
        match self.state {
            StateModel::Active(a) => now.step_active(a, self.movement),
            StateModel::Waiting(w) => now.step_waiting(w, self.movement, drawn),
            StateModel::GameOver(o) => now.step_game_over(o),
        }
    }

    /// Whether the next tick deals a piece.
    pub open spec fn deals(self) -> bool {
        self.state matches StateModel::Waiting(w) && spawn_due(w)
    }

    /// Whether a tick with this input locks the piece in play.
    pub open spec fn locks(self, input: Movement) -> bool {
        let now = GameModel { movement: input, ..self };
        self.state matches StateModel::Active(a) && legal(a.piece, self.board) && lock_due(
            now.advanced(a, self.movement),
            input,
        )
    }

    /// The rows that the lock of a tick with this input clears.
    pub open spec fn lock_lines(self, input: Movement) -> int
        recommends
            self.locks(input),
    {
        let now = GameModel { movement: input, ..self };
        full_rows(merged(self.board, now.advanced(self.state->Active_0, self.movement).piece))
    }

    /// The game after the ticks with the given inputs, one after the other.
    /// `draws[i]` is the piece type that the randomizer yields in tick `i`.
    pub open spec fn run(self, inputs: Seq<Movement>, draws: Seq<PieceType>) -> GameModel
        recommends
            inputs.len() == draws.len(),
        decreases inputs.len(),
    {
        if inputs.len() == 0 {
            self
        } else {
            self.run(inputs.drop_last(), draws.drop_last()).step(inputs.last(), draws.last())
        }
    }
}

/// Whether the piece type is among those seen last.
pub fn seen_recently(last_seen: &VecDeque<PieceType>, piece: PieceType) -> (seen: bool)
    ensures
        seen == last_seen@.contains(piece),
{
    let mut i: usize = 0;
    while i < last_seen.len()
        invariant
            i <= last_seen@.len(),
            forall|j: int| 0 <= j < i ==> last_seen@[j] != piece,
        decreases last_seen@.len() - i,
    {
        if last_seen[i] == piece {
            return true;
        }
        i += 1;
    }
    false
}

/// Whether a piece type that was drawn on `level` has to be drawn again: on
/// level 0 a game opens with neither S nor Z nor O.
pub fn barred_opener(level: i32, piece: PieceType) -> (barred: bool)
    ensures
        barred == (level == 0 && poor_opener(piece)),
{
    level == 0 && (piece == PieceType::S || piece == PieceType::Z || piece == PieceType::O)
}

/// What follows a draw.
#[derive(Debug, PartialEq, Eq, Clone, Copy, Structural)]
pub enum AfterDraw {
    /// The piece type is dealt.
    Deal(PieceType),
    /// The round goes on with another draw.
    DrawAgain,
    /// The round is given up and a new one begins.
    NewRound,
}

/// The rule of the draw. `piece` is the draw number `tries`, counted from 1,
/// of the round number `rounds`, counted from 0. A piece type that was seen
/// lately is drawn again, but not after the last of the `TRIES` draws of a
/// round. The piece type that a round settles on is dealt, unless the level
/// is 0 and it may not open a game: then a new round begins, and after the
/// last of the `OPENING_ROUNDS` rounds the I piece is dealt.
pub open spec fn after_draw(
    level: int,
    rounds: int,
    tries: int,
    piece: PieceType,
    last_seen: Seq<PieceType>,
) -> AfterDraw {
    if tries < TRIES && last_seen.contains(piece) {
        AfterDraw::DrawAgain
    } else if !(level == 0 && poor_opener(piece)) {
        AfterDraw::Deal(piece)
    } else if rounds + 1 < OPENING_ROUNDS {
        AfterDraw::NewRound
    } else {
        AfterDraw::Deal(PieceType::I)
    }
}

/// How far a sequence of draws has led.
pub enum DrawProgress {
    /// No piece type is dealt yet: the next draw is number `tries` of round
    /// number `rounds`.
    Pending { rounds: int, tries: int },
    /// The piece type is dealt.
    Dealt(PieceType),
}

/// Where the draws lead to, taken one after the other from the first draw
/// of the first round. Draws after the one that deals a piece type count
/// for nothing.
pub open spec fn draw_progress(level: int, draws: Seq<PieceType>, last_seen: Seq<PieceType>)
    -> DrawProgress
    decreases draws.len(),
{
    if draws.len() == 0 {
        DrawProgress::Pending { rounds: 0, tries: 1 }
    } else {
        match draw_progress(level, draws.drop_last(), last_seen) {
            DrawProgress::Dealt(piece) => DrawProgress::Dealt(piece),
            DrawProgress::Pending { rounds, tries } => match after_draw(
                level,
                rounds,
                tries,
                draws.last(),
                last_seen,
            ) {
                AfterDraw::Deal(piece) => DrawProgress::Dealt(piece),
                AfterDraw::DrawAgain => DrawProgress::Pending { rounds, tries: tries + 1 },
                AfterDraw::NewRound => DrawProgress::Pending { rounds: rounds + 1, tries: 1 },
            },
        }
    }
}

/// The draws deal `piece`, and it is the last of them that does.
pub open spec fn dealt_by(
    level: int,
    draws: Seq<PieceType>,
    last_seen: Seq<PieceType>,
    piece: PieceType,
) -> bool {
    &&& draws.len() > 0
    &&& draw_progress(level, draws.drop_last(), last_seen) is Pending
    &&& draw_progress(level, draws, last_seen) == DrawProgress::Dealt(piece)
}

/// Decides what follows the draw of `piece` as draw number `tries` of round
/// number `rounds`.
pub fn judge_draw(
    level: i32,
    rounds: i32,
    tries: i32,
    piece: PieceType,
    last_seen: &VecDeque<PieceType>,
) -> (next: AfterDraw)
    ensures
        next == after_draw(level as int, rounds as int, tries as int, piece, last_seen@),
{
    if tries < TRIES && seen_recently(last_seen, piece) {
        AfterDraw::DrawAgain
    } else if !barred_opener(level, piece) {
        AfterDraw::Deal(piece)
    } else if rounds < OPENING_ROUNDS - 1 {
        AfterDraw::NewRound
    } else {
        AfterDraw::Deal(PieceType::I)
    }
}

/// Draws the piece type that is dealt after those seen last: draws piece
/// types at random, one after the other, and lets `judge_draw` decide after
/// each what follows. The piece type that is dealt is the one that the
/// draws made lead to by the rule of the draw; on level 0 it may open a
/// game.
pub fn draw_new_piece(level: i32, rng: &mut StdRng, last_seen: &VecDeque<PieceType>) -> (piece:
    PieceType)
    ensures
        level == 0 ==> !poor_opener(piece),
        exists|draws: Seq<PieceType>| #[trigger] dealt_by(level as int, draws, last_seen@, piece),
{
    let mut rounds: i32 = 0;
    let mut tries: i32 = 1;
    let ghost mut drawn: Seq<PieceType> = Seq::empty();
    loop
        invariant
            0 <= rounds < OPENING_ROUNDS,
            1 <= tries <= TRIES,
            draw_progress(level as int, drawn, last_seen@) == (DrawProgress::Pending {
                rounds: rounds as int,
                tries: tries as int,
            }),
        decreases OPENING_ROUNDS - rounds, TRIES - tries,
    {
        let piece = PieceType::random(rng);
        proof {
            assert(drawn.push(piece).drop_last() =~= drawn);
            drawn = drawn.push(piece);
        }
        match judge_draw(level, rounds, tries, piece, last_seen) {
            AfterDraw::Deal(dealt) => {
                assert(dealt_by(level as int, drawn, last_seen@, dealt));
                return dealt;
            },
            AfterDraw::DrawAgain => {
                tries += 1;
            },
            AfterDraw::NewRound => {
                rounds += 1;
                tries = 1;
            },
        }
    }
}

/// The charge timer after a tick.
fn next_charge(prev: &Movement, cur: &Movement, das_frames: i32) -> (next: i32)
    requires
        das_frames < i32::MAX,
    ensures
        next == charged(*prev, *cur, das_frames as int),
{
    match cur.dir {
        Some(Direction::Left) | Some(Direction::Right) => {
            if prev.dir == cur.dir {
                das_frames + 1
            } else {
                0
            }
        },
        _ => 0,
    }
}

/// Multiplying two numbers that are not negative keeps their order.
proof fn lemma_product_grows(a: int, b: int, x: int, y: int)
    by (nonlinear_arith)
    requires
        0 <= a <= x,
        0 <= b <= y,
    ensures
        0 <= a * b <= x * y,
{
}

/// What a lock is worth is not negative, and grows with the lines cleared,
/// the ticks that down was held, the combo, and an empty playfield.
proof fn lemma_score_delta_grows(
    level: int,
    lines: int,
    down_frames: int,
    combo: int,
    bravo: bool,
    most_lines: int,
    most_down: int,
    most_combo: int,
)
    requires
        0 <= level,
        0 <= lines <= most_lines,
        0 <= down_frames <= most_down,
        0 <= combo <= most_combo,
    ensures
        0 <= score_delta(level, lines, down_frames, combo, bravo) <= score_delta(
            level,
            most_lines,
            most_down,
            most_combo,
            true,
        ),
{
    let per_line = (level + lines + 3) / 4 + down_frames;
    let most_per_line = (level + most_lines + 3) / 4 + most_down;
    let factor: int = if bravo {
        4
    } else {
        1
    };
    lemma_product_grows(per_line, lines, most_per_line, most_lines);
    lemma_product_grows(per_line * lines, combo, most_per_line * most_lines, most_combo);
    lemma_product_grows(
        per_line * lines * combo,
        factor,
        most_per_line * most_lines * most_combo,
        4,
    );
}

impl GameState {
    /// What holds of every game between two ticks: four piece types are
    /// remembered, and no counter is negative or past its limit.
    pub open spec fn wf(&self) -> bool {
        &&& self.last_seen@.len() == 4
        &&& self.level >= 0
        &&& self.current_combo >= 0
        &&& match self.state {
            State::Active(a) => {
                &&& 0 <= a.lock_frames < LOCK_DELAY_FRAMES
                &&& a.das_frames >= 0
                &&& a.down_frames >= 0
                &&& a.gravity_frames >= 0
            },
            State::Waiting(w) => {
                &&& 0 <= w.waiting_frames <= LINE_CLEAR_FRAMES
                &&& w.das_frames >= 0
            },
            State::GameOver(o) => o.mono_frames >= 0,
        }
    }

    /// No counter is so close to the limit of its type that a tick could
    /// take it past: the timers can grow by one, the level by the height of
    /// the playfield, and the score by the most that a lock can be worth.
    pub open spec fn has_headroom(&self) -> bool {
        &&& self.level + BOARD_HEIGHT <= i32::MAX
        &&& self.current_combo < i32::MAX
        &&& match self.state {
            State::Active(a) => {
                &&& a.das_frames < i32::MAX
                &&& a.down_frames < i32::MAX
                &&& self.player_record.score + score_delta(
                    self.level as int,
                    BOARD_HEIGHT as int,
                    a.down_frames + 1,
                    self.current_combo + 1,
                    true,
                ) <= i32::MAX
            },
            State::Waiting(w) => w.das_frames < i32::MAX,
            State::GameOver(o) => o.mono_frames < i32::MAX,
        }
    }

    /// Whether the game is fit for a tick: well formed, with headroom.
    pub fn can_tick(&self) -> (ok: bool)
        ensures
            ok == (self.wf() && self.has_headroom()),
    {
        if self.last_seen.len() != 4 || self.level < 0 || self.current_combo < 0 {
            return false;
        }
        if self.level > i32::MAX - 21 || self.current_combo == i32::MAX {
            return false;
        }
        match self.state {
            State::Active(a) => {
                if a.lock_frames < 0 || a.lock_frames >= LOCK_DELAY_FRAMES || a.das_frames < 0
                    || a.down_frames < 0 || a.gravity_frames < 0 {
                    return false;
                }
                if a.das_frames == i32::MAX || a.down_frames == i32::MAX {
                    return false;
                }
                let most = line_clear_points(
                    self.level,
                    21,
                    a.down_frames + 1,
                    self.current_combo + 1,
                    true,
                );
                self.player_record.score as i128 + most <= i32::MAX as i128
            },
            State::Waiting(w) => {
                0 <= w.waiting_frames && w.waiting_frames <= LINE_CLEAR_FRAMES && 0 <= w.das_frames
                    && w.das_frames < i32::MAX
            },
            State::GameOver(o) => 0 <= o.mono_frames && o.mono_frames < i32::MAX,
        }
    }

    /// A new game on the given speed curve, begun at the time `now` in
    /// nanoseconds since the Unix epoch: an empty playfield, no score, the
    /// lowest grade, and a wait for the first piece.
    pub fn new(rng: StdRng, curve: SpeedCurve, now: u128) -> (game: GameState)
        ensures
            game.wf(),
            game.has_headroom(),
            game@ == (GameModel {
                state: StateModel::Waiting(
                    WaitingModel { waiting_frames: 0, das_frames: 0, did_clear_line: false },
                ),
                last_seen: seq![PieceType::Z, PieceType::Z, PieceType::Z, PieceType::Z],
                next_piece: game.next_piece,
                level: START_LEVEL as int,
                current_combo: 0,
                score: 0,
                grade: Grade::N9,
                gm_requirements: GMRequirements {
                    three_hundred: None,
                    five_hundred: None,
                    game_end: None,
                },
                start_time: now as int,
                board: empty_grid(),
                movement: Movement { dir: None, rot: None },
                base: curve.base,
                steps: curve.steps@,
            }),
    {
        let level = START_LEVEL;
        let mut rng = rng;
        let mut last_seen: VecDeque<PieceType> = VecDeque::new();
        last_seen.push_back(PieceType::Z);
        last_seen.push_back(PieceType::Z);
        last_seen.push_back(PieceType::Z);
        last_seen.push_back(PieceType::Z);
        assert(last_seen@ =~= seq![PieceType::Z, PieceType::Z, PieceType::Z, PieceType::Z]);
        let next_piece = draw_new_piece(level, &mut rng, &last_seen);
        GameState {
            state: State::Waiting(
                WaitingState { waiting_frames: 0, das_frames: 0, did_clear_line: false },
            ),
            last_seen,
            next_piece,
            rng,
            level,
            current_combo: 0,
            player_record: PlayerRecord {
                score: 0,
                gm_requirements: GMRequirements {
                    three_hundred: None,
                    five_hundred: None,
                    game_end: None,
                },
                start_time: now,
                grade: Grade::N9,
            },
            board: Board::default(),
            movement: Movement::default(),
            curve,
        }
    }

    /// Deals the next piece: the piece type that was up next comes into play
    /// at the spawn position, turned by the rotation that is held; a new
    /// piece type is drawn to be up next; the level advances.
    pub fn iter_piece(&mut self) -> (piece: Piece)
        requires
            0 <= old(self).level < i32::MAX,
        ensures
            final(self)@ == old(self)@.dealt(final(self).next_piece).0,
            piece@ == spawn_piece(old(self).next_piece, old(self).movement.rot, old(self).board@),
            final(self).state == old(self).state,
            old(self).level == 0 ==> !poor_opener(final(self).next_piece),
    {
        let current_next_piece = self.next_piece;

        self.last_seen.push_back(current_next_piece);
        self.last_seen.pop_front();

        self.next_piece = draw_new_piece(self.level, &mut self.rng, &self.last_seen);

        // The level stands still on 998 and on the levels that end in 99.
        if self.level != 998 && self.level % 100 != 99 {
            self.level += 1;
        }
        let piece = current_next_piece.to_piece();
        let rot = self.movement.rot;

        apply_movement(&Movement::default(), &Movement { rot, dir: None }, 0, piece, &self.board)
    }

    /// A tick with a piece in play.
    fn tick_active(&mut self, st: ActiveState, previous_movement: Movement)
        requires
            old(self).wf(),
            old(self).has_headroom(),
            old(self).state == State::Active(st),
        ensures
            final(self).wf(),
            final(self)@ == old(self)@.step_active(st@, previous_movement),
            final(self).next_piece == old(self).next_piece,
    {
        let ghost grid = self.board@;
        let ghost speed = self.curve.at(self.level as int);
        let mut st = st;
        if !is_movement_legal(&st.piece, &self.board) {
            self.state = State::GameOver(GameOverState { mono_frames: 0 });
            return ;
        }
        proof {
            lemma_fallen_stays_legal(st.piece@, grid, speed, st.gravity_frames as int);
        }
        // Gravity acts once before the input.
        if let Some(next_st) = fall(st.piece, &self.board, &self.curve, self.level, st.gravity_frames) {
            st.piece = next_st;
        }
        let ghost first = st.piece@;
        proof {
            lemma_resolved_stays_legal(
                previous_movement,
                self.movement,
                st.das_frames as int,
                first,
                grid,
            );
        }
        st.piece = apply_movement(
            &previous_movement,
            &self.movement,
            st.das_frames,
            st.piece,
            &self.board,
        );
        let ghost steered = st.piece@;
        proof {
            lemma_fallen_stays_legal(steered, grid, speed, st.gravity_frames as int);
        }
        match fall(st.piece, &self.board, &self.curve, self.level, st.gravity_frames) {
            Some(next_st) => {
                // The piece is not on the floor.
                st.lock_frames = 0;
                if next_st.y == st.piece.y {
                    st.gravity_frames += 1;
                } else {
                    st.gravity_frames = 1;
                }
                st.piece = next_st;
            },
            None => {
                // The piece is on the floor.
                st.lock_frames += 1;
            },
        }
        match self.movement.dir {
            Some(Direction::Down) => {
                st.down_frames += 1;
            },
            _ => {
                st.das_frames = next_charge(&previous_movement, &self.movement, st.das_frames);
            },
        }

        if st.lock_frames >= LOCK_DELAY_FRAMES || (st.lock_frames > 0 && self.movement.dir == Some(
            Direction::Down,
        )) {
            proof {
                lemma_legal_is_near(st.piece@, grid);
                lemma_cleared_keeps_height(merged(grid, st.piece@));
            }
            let lines = self.board.lock_piece(st.piece);
            if lines > 0 {
                self.current_combo += 1;
            } else {
                self.current_combo = 0;
            }
            proof {
                lemma_score_delta_grows(
                    self.level as int,
                    lines as int,
                    st.down_frames as int,
                    self.current_combo as int,
                    grid_empty(self.board@),
                    BOARD_HEIGHT as int,
                    old(self).state->Active_0.down_frames + 1,
                    old(self).current_combo + 1,
                );
            }
            update_record(self, lines, st.down_frames);
            self.state = State::Waiting(
                WaitingState { waiting_frames: 0, das_frames: 0, did_clear_line: lines > 0 },
            );
        } else {
            self.state = State::Active(st);
        }
    }

    /// A tick between two pieces.
    fn tick_waiting(&mut self, st: WaitingState, previous_movement: Movement)
        requires
            old(self).wf(),
            old(self).has_headroom(),
            old(self).state == State::Waiting(st),
        ensures
            final(self).wf(),
            final(self)@ == old(self)@.step_waiting(
                st@,
                previous_movement,
                final(self).next_piece,
            ),
            !spawn_due(st@) ==> final(self).next_piece == old(self).next_piece,
            spawn_due(st@) && old(self).level == 0 ==> !poor_opener(final(self).next_piece),
    {
        let mut st = st;
        st.das_frames = next_charge(&previous_movement, &self.movement, st.das_frames);
        let due = if st.did_clear_line {
            st.waiting_frames >= LINE_CLEAR_FRAMES
        } else {
            st.waiting_frames >= ARE_FRAMES
        };
        if due {
            let mut piece = self.iter_piece();
            // Gravity acts once on the new piece as though it were due.
            if let Some(n_piece) = fall(piece, &self.board, &self.curve, self.level, 1) {
                piece = n_piece;
            }
            self.state = State::Active(
                ActiveState {
                    piece,
                    lock_frames: 0,
                    das_frames: st.das_frames,
                    down_frames: 0,
                    gravity_frames: 0,
                },
            );
        } else {
            st.waiting_frames += 1;
            self.state = State::Waiting(st);
        }
    }

    /// A tick after the game is over.
    fn tick_game_over(&mut self, st: GameOverState)
        requires
            old(self).wf(),
            old(self).has_headroom(),
            old(self).state == State::GameOver(st),
        ensures
            final(self).wf(),
            final(self)@ == old(self)@.step_game_over(st@),
            final(self).next_piece == old(self).next_piece,
    {
        let mut st = st;
        st.mono_frames += 1;
        self.board.monoify(st.mono_frames);
        self.state = State::GameOver(st);
    }

    /// Advances the game by one tick, in which the player holds `movement`.
    /// The game is what `step` gives for the game before the tick, the
    /// input, and the piece type that is up next after the tick. A piece
    /// type that is drawn on level 0 may open a game.
    pub fn tick(&mut self, movement: Movement)
        requires
            old(self).wf(),
            old(self).has_headroom(),
        ensures
            final(self).wf(),
            final(self)@ == old(self)@.step(movement, final(self).next_piece),
            !old(self)@.deals() ==> final(self).next_piece == old(self).next_piece,
            old(self)@.deals() && old(self).level == 0 ==> !poor_opener(final(self).next_piece),
    {
        let previous_movement = self.movement;
        self.movement = movement;
        match self.state {
            State::Active(st) => self.tick_active(st, previous_movement),
            State::Waiting(st) => self.tick_waiting(st, previous_movement),
            State::GameOver(st) => self.tick_game_over(st),
        }
    }

    /// Advances the game by one tick if it is fit for one, and leaves it
    /// untouched if it is not. Returns whether the tick was made.
    pub fn try_tick(&mut self, movement: Movement) -> (done: bool)
        ensures
            done == (old(self).wf() && old(self).has_headroom()),
            !done ==> *final(self) == *old(self),
            done ==> final(self).wf() && final(self)@ == old(self)@.step(
                movement,
                final(self).next_piece,
            ),
            done && !old(self)@.deals() ==> final(self).next_piece == old(self).next_piece,
            done && old(self)@.deals() && old(self).level == 0 ==> !poor_opener(
                final(self).next_piece,
            ),
    {
        if self.can_tick() {
            self.tick(movement);
            true
        } else {
            false
        }
    }
}

/// The combo law. A lock that clears no row sets the combo to zero; a lock
/// that clears a row or more adds exactly one to it. Either way the game
/// goes on to wait, and remembers whether a row was cleared.
pub proof fn law_combo(g: GameModel, input: Movement, drawn: PieceType)
    requires
        g.locks(input),
    ensures
        g.lock_lines(input) >= 0,
        g.lock_lines(input) == 0 ==> g.step(input, drawn).current_combo == 0,
        g.lock_lines(input) > 0 ==> g.step(input, drawn).current_combo == g.current_combo + 1,
        g.step(input, drawn).state == StateModel::Waiting(
            WaitingModel {
                waiting_frames: 0,
                das_frames: 0,
                did_clear_line: g.lock_lines(input) > 0,
            },
        ),
{
    let now = GameModel { movement: input, ..g };
    let next = now.advanced(g.state->Active_0, g.movement);
    lemma_cleared_keeps_height(merged(g.board, next.piece));
}

/// How long a wait lasts. From the tick after a lock, the game waits for
/// 30 ticks if the lock cleared no row and for 41 ticks if it cleared one,
/// whatever the input; the tick after those brings the next piece into
/// play.
pub proof fn law_wait_length(g: GameModel, inputs: Seq<Movement>, draws: Seq<PieceType>)
    requires
        g.state matches StateModel::Waiting(w) && w.waiting_frames == 0,
        inputs.len() == draws.len(),
    ensures
        ({
            let cleared_line = g.state->Waiting_0.did_clear_line;
            let wait: int = if cleared_line {
                41
            } else {
                30
            };
            &&& inputs.len() <= wait ==> (g.run(inputs, draws).state matches StateModel::Waiting(w)
                && w.waiting_frames == inputs.len() && w.did_clear_line == cleared_line)
            &&& inputs.len() == wait + 1 ==> g.run(inputs, draws).state is Active
        }),
    decreases inputs.len(),
{
    if inputs.len() > 0 {
        law_wait_length(g, inputs.drop_last(), draws.drop_last());
    }
}

/// A game that is over stays over.
pub proof fn law_game_over_is_final(g: GameModel, input: Movement, drawn: PieceType)
    requires
        g.state is GameOver,
    ensures
        g.step(input, drawn).state is GameOver,
        g.step(input, drawn).score == g.score,
        g.step(input, drawn).level == g.level,
{
}

/// A tick deals a piece only at the end of a wait, and only then do the
/// piece type that is up next and the four last seen change. The piece
/// type that comes into play is the one that was up next.
pub proof fn law_next_piece_is_dealt(g: GameModel, input: Movement, drawn: PieceType)
    ensures
        !g.deals() ==> g.step(input, drawn).next_piece == g.next_piece && g.step(
            input,
            drawn,
        ).last_seen == g.last_seen,
        g.deals() ==> g.step(input, drawn).next_piece == drawn && g.step(input, drawn).last_seen
            == g.last_seen.push(g.next_piece).drop_first() && (g.step(
            input,
            drawn,
        ).state matches StateModel::Active(a) && a.piece.p_type == g.next_piece),
{
    if g.deals() {
        let now = GameModel { movement: input, ..g };
        let spawned = spawn_piece(g.next_piece, input.rot, g.board);
        lemma_descended(
            spawned,
            g.board,
            now.speed(level_after_spawn(g.level)).rows as int,
        );
    }
}

/// A piece in play that is legal stays legal for as long as it is in play,
/// and keeps its type.
pub proof fn law_piece_in_play_stays_legal(g: GameModel, input: Movement, drawn: PieceType)
    requires
        g.state matches StateModel::Active(a) && legal(a.piece, g.board),
    ensures
        g.step(input, drawn).state matches StateModel::Active(b) ==> legal(b.piece, g.board)
            && g.step(input, drawn).board == g.board && b.piece.p_type
            == g.state->Active_0.piece.p_type,
{
    let a = g.state->Active_0;
    let now = GameModel { movement: input, ..g };
    let speed = now.speed(g.level);
    lemma_fallen_stays_legal(a.piece, g.board, speed, a.gravity_frames);
    let first = settled(a.piece, g.board, speed, a.gravity_frames);
    lemma_resolved_stays_legal(g.movement, input, a.das_frames, first, g.board);
    let steered = resolved(g.movement, input, a.das_frames, first, g.board);
    lemma_fallen_stays_legal(steered, g.board, speed, a.gravity_frames);
}

/// The rule of the draw above level 0. Of four draws the first that was not
/// seen lately is dealt, and no draw is made after it; if all four were
/// seen, the fourth is dealt.
pub proof fn law_first_unseen_draw_is_dealt(
    level: int,
    d0: PieceType,
    d1: PieceType,
    d2: PieceType,
    d3: PieceType,
    last_seen: Seq<PieceType>,
)
    requires
        level != 0,
    ensures
        !last_seen.contains(d0) ==> dealt_by(level, seq![d0], last_seen, d0),
        last_seen.contains(d0) && !last_seen.contains(d1) ==> dealt_by(
            level,
            seq![d0, d1],
            last_seen,
            d1,
        ),
        last_seen.contains(d0) && last_seen.contains(d1) && !last_seen.contains(d2) ==> dealt_by(
            level,
            seq![d0, d1, d2],
            last_seen,
            d2,
        ),
        last_seen.contains(d0) && last_seen.contains(d1) && last_seen.contains(d2) ==> dealt_by(
            level,
            seq![d0, d1, d2, d3],
            last_seen,
            d3,
        ),
{
    reveal_with_fuel(draw_progress, 6);
    assert(seq![d0].drop_last() =~= Seq::<PieceType>::empty());
    assert(seq![d0, d1].drop_last() =~= seq![d0]);
    assert(seq![d0, d1, d2].drop_last() =~= seq![d0, d1]);
    assert(seq![d0, d1, d2, d3].drop_last() =~= seq![d0, d1, d2]);
}

/// The draw always ends. While no piece type is dealt, a round has at most
/// `TRIES` draws and there are at most `OPENING_ROUNDS` rounds, so that
/// after `OPENING_ROUNDS * TRIES` draws a piece type is dealt. Above level 0
/// the first round is the only one. A piece type that is dealt on level 0
/// may open a game.
pub proof fn law_draws_end(level: int, draws: Seq<PieceType>, last_seen: Seq<PieceType>)
    ensures
        draw_progress(level, draws, last_seen) matches DrawProgress::Pending { rounds, tries } ==> {
            &&& 0 <= rounds < OPENING_ROUNDS
            &&& 1 <= tries <= TRIES
            &&& draws.len() <= rounds * TRIES + tries - 1
            &&& level != 0 ==> rounds == 0
        },
        draws.len() >= OPENING_ROUNDS * TRIES ==> draw_progress(level, draws, last_seen) is Dealt,
        draw_progress(level, draws, last_seen) matches DrawProgress::Dealt(piece) ==> (level == 0
            ==> !poor_opener(piece)),
    decreases draws.len(),
{
    if draws.len() > 0 {
        law_draws_end(level, draws.drop_last(), last_seen);
    }
}

} // verus!
