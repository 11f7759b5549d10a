//! Score, level and grade: what a lock is worth, and the rank that a score
//! earns.
use vstd::prelude::*;
use crate::board::grid_empty;
use crate::game::GameState;

verus! {

/// Nanoseconds in a second.
pub const NANOS_PER_SECOND: u128 = 1_000_000_000;

/// The score and the time at one checkpoint of a run. `time` is the time
/// since the run began, in nanoseconds.
#[derive(Debug, PartialEq, Eq, Clone, Copy, Structural)]
pub struct GMCondition {
    pub score: i32,
    pub time: u128,
}

/// The three checkpoints that decide the highest grade: at level 300, at
/// level 500 and at the end of the game. A checkpoint is `None` until the
/// run has passed it.
#[derive(Debug, PartialEq, Eq, Clone, Copy, Structural)]
pub struct GMRequirements {
    pub three_hundred: Option<GMCondition>,
    pub five_hundred: Option<GMCondition>,
    pub game_end: Option<GMCondition>,
}

/// The ranks, lowest first.
#[derive(Debug, PartialEq, Eq, Clone, Copy, Structural)]
pub enum Grade {
    N9,
    N8,
    N7,
    N6,
    N5,
    N4,
    N3,
    N2,
    N1,
    S1,
    S2,
    S3,
    S4,
    S5,
    S6,
    S7,
    S8,
    S9,
    GM,
}

/// What a player has achieved in a run. `start_time` is when the run began,
/// in nanoseconds since the Unix epoch.
#[derive(Debug, PartialEq, Eq, Clone, Copy, Structural)]
pub struct PlayerRecord {
    pub score: i32,
    pub gm_requirements: GMRequirements,
    pub start_time: u128,
    pub grade: Grade,
}

impl Grade {
    /// The place of this grade among the nineteen, counted from the lowest.
    pub open spec fn rank(self) -> int {
        match self {
            Grade::N9 => 0,
            Grade::N8 => 1,
            Grade::N7 => 2,
            Grade::N6 => 3,
            Grade::N5 => 4,
            Grade::N4 => 5,
            Grade::N3 => 6,
            Grade::N2 => 7,
            Grade::N1 => 8,
            Grade::S1 => 9,
            Grade::S2 => 10,
            Grade::S3 => 11,
            Grade::S4 => 12,
            Grade::S5 => 13,
            Grade::S6 => 14,
            Grade::S7 => 15,
            Grade::S8 => 16,
            Grade::S9 => 17,
            Grade::GM => 18,
        }
    }

    /// The score from which this grade is earned. `N9` needs none, and no
    /// score earns `GM`.
    pub open spec fn threshold(self) -> Option<int> {
        match self {
            Grade::N9 => None,
            Grade::N8 => Some(400),
            Grade::N7 => Some(800),
            Grade::N6 => Some(1_400),
            Grade::N5 => Some(2_000),
            Grade::N4 => Some(3_500),
            Grade::N3 => Some(5_500),
            Grade::N2 => Some(8_000),
            Grade::N1 => Some(12_000),
            Grade::S1 => Some(16_000),
            Grade::S2 => Some(22_000),
            Grade::S3 => Some(30_000),
            Grade::S4 => Some(40_000),
            Grade::S5 => Some(52_000),
            Grade::S6 => Some(66_000),
            Grade::S7 => Some(82_000),
            Grade::S8 => Some(100_000),
            Grade::S9 => Some(120_000),
            Grade::GM => None,
        }
    }

    /// The name of this grade, as it is shown to the player.
    pub open spec fn name_text(self) -> Seq<char> {
        match self {
            Grade::N9 => "N9"@,
            Grade::N8 => "N8"@,
            Grade::N7 => "N7"@,
            Grade::N6 => "N6"@,
            Grade::N5 => "N5"@,
            Grade::N4 => "N4"@,
            Grade::N3 => "N3"@,
            Grade::N2 => "N2"@,
            Grade::N1 => "N1"@,
            Grade::S1 => "S1"@,
            Grade::S2 => "S2"@,
            Grade::S3 => "S3"@,
            Grade::S4 => "S4"@,
            Grade::S5 => "S5"@,
            Grade::S6 => "S6"@,
            Grade::S7 => "S7"@,
            Grade::S8 => "S8"@,
            Grade::S9 => "S9"@,
            Grade::GM => "GM"@,
        }
    }

    /// The name of this grade.
    pub fn name(&self) -> (s: String)
        ensures
            s@ == self.name_text(),
    {
        match self {
            Grade::N9 => "N9".to_string(),
            Grade::N8 => "N8".to_string(),
            Grade::N7 => "N7".to_string(),
            Grade::N6 => "N6".to_string(),
            Grade::N5 => "N5".to_string(),
            Grade::N4 => "N4".to_string(),
            Grade::N3 => "N3".to_string(),
            Grade::N2 => "N2".to_string(),
            Grade::N1 => "N1".to_string(),
            Grade::S1 => "S1".to_string(),
            Grade::S2 => "S2".to_string(),
            Grade::S3 => "S3".to_string(),
            Grade::S4 => "S4".to_string(),
            Grade::S5 => "S5".to_string(),
            Grade::S6 => "S6".to_string(),
            Grade::S7 => "S7".to_string(),
            Grade::S8 => "S8".to_string(),
            Grade::S9 => "S9".to_string(),
            Grade::GM => "GM".to_string(),
        }
    }
}

/// A checkpoint is met when it has been passed with at least `min_score`
/// points and after more than `min_seconds` seconds.
pub open spec fn checkpoint_met(c: Option<GMCondition>, min_score: int, min_seconds: int) -> bool {
    c matches Some(cond) && cond.score >= min_score && cond.time > min_seconds * NANOS_PER_SECOND
}

/// The highest grade is earned when all three checkpoints are met: 12 000
/// points after 4:15 at level 300, 40 000 points after 7:30 at level 500, and
/// 126 000 points after 13:30 at the end.
pub open spec fn gm_met(req: GMRequirements) -> bool {
    &&& checkpoint_met(req.three_hundred, 12_000, 255)
    &&& checkpoint_met(req.five_hundred, 40_000, 450)
    &&& checkpoint_met(req.game_end, 126_000, 810)
}

/// The grade that a score earns by the table of thresholds.
pub open spec fn score_grade(score: int) -> Grade {
    if score >= 120_000 {
        Grade::S9
    } else if score >= 100_000 {
        Grade::S8
    } else if score >= 82_000 {
        Grade::S7
    } else if score >= 66_000 {
        Grade::S6
    } else if score >= 52_000 {
        Grade::S5
    } else if score >= 40_000 {
        Grade::S4
    } else if score >= 30_000 {
        Grade::S3
    } else if score >= 22_000 {
        Grade::S2
    } else if score >= 16_000 {
        Grade::S1
    } else if score >= 12_000 {
        Grade::N1
    } else if score >= 8_000 {
        Grade::N2
    } else if score >= 5_500 {
        Grade::N3
    } else if score >= 3_500 {
        Grade::N4
    } else if score >= 2_000 {
        Grade::N5
    } else if score >= 1_400 {
        Grade::N6
    } else if score >= 800 {
        Grade::N7
    } else if score >= 400 {
        Grade::N8
    } else {
        Grade::N9
    }
}

/// The grade of a run: `GM` where the checkpoints are met, else what the
/// score earns.
pub open spec fn graded(score: int, req: GMRequirements) -> Grade {
    if gm_met(req) {
        Grade::GM
    } else {
        score_grade(score)
    }
}

/// What a lock is worth: a quarter of level plus lines, rounded up, plus the
/// ticks that down was held; times the lines cleared, times the combo, and
/// times four where the playfield is left empty.
pub open spec fn score_delta(level: int, lines: int, down_frames: int, combo: int, bravo: bool)
    -> int {
    ((level + lines + 3) / 4 + down_frames) * lines * combo * (if bravo {
        4int
    } else {
        1int
    })
}

/// The level after a lock that cleared `lines` rows.
pub open spec fn level_after_lock(level: int, lines: int) -> int {
    level + if lines > 999 {
        999
    } else {
        lines
    }
}

/// Whether the three checkpoints of the record earn the highest grade.
pub fn is_gm(record: &PlayerRecord) -> (gm: bool)
    ensures
        gm == gm_met(record.gm_requirements),
{
    let one_second: u128 = NANOS_PER_SECOND;
    let one_minute: u128 = one_second * 60;
    let four_min_15_sec: u128 = one_minute * 4 + one_second * 15;
    let seven_min_30_sec: u128 = one_minute * 7 + one_second * 30;
    let thirteen_min_30_sec: u128 = one_minute * 13 + one_second * 30;

    match (
        record.gm_requirements.three_hundred,
        record.gm_requirements.five_hundred,
        record.gm_requirements.game_end,
    ) {
        (Some(three_hundred), Some(five_hundred), Some(game_end)) => {
            if three_hundred.score < 12_000 || three_hundred.time <= four_min_15_sec {
                return false;
            }
            if five_hundred.score < 40_000 || five_hundred.time <= seven_min_30_sec {
                return false;
            }
            if game_end.score < 126_000 || game_end.time <= thirteen_min_30_sec {
                return false;
            }
            true
        },
        _ => false,
    }
}

/// The grade of the record.
pub fn get_grade(record: &PlayerRecord) -> (grade: Grade)
    ensures
        grade == graded(record.score as int, record.gm_requirements),
{
    let score = record.score;
    if is_gm(record) {
        return Grade::GM;
    }
    if score >= 120_000 {
        Grade::S9
    } else if score >= 100_000 {
        Grade::S8
    } else if score >= 82_000 {
        Grade::S7
    } else if score >= 66_000 {
        Grade::S6
    } else if score >= 52_000 {
        Grade::S5
    } else if score >= 40_000 {
        Grade::S4
    } else if score >= 30_000 {
        Grade::S3
    } else if score >= 22_000 {
        Grade::S2
    } else if score >= 16_000 {
        Grade::S1
    } else if score >= 12_000 {
        Grade::N1
    } else if score >= 8_000 {
        Grade::N2
    } else if score >= 5_500 {
        Grade::N3
    } else if score >= 3_500 {
        Grade::N4
    } else if score >= 2_000 {
        Grade::N5
    } else if score >= 1_400 {
        Grade::N6
    } else if score >= 800 {
        Grade::N7
    } else if score >= 400 {
        Grade::N8
    } else {
        Grade::N9
    }
}

/// The product of two bounded numbers is bounded by the product of the
/// bounds.
proof fn lemma_product_bound(a: int, b: int, x: int, y: int)
    by (nonlinear_arith)
    requires
        -x <= a <= x,
        -y <= b <= y,
    ensures
        -(x * y) <= a * b <= x * y,
{
}

/// The points for a lock.
pub fn get_line_clear_score(
    level: i32,
    lines_cleared: i32,
    frames_down_held: i32,
    combo: i32,
    is_bravo: bool,
) -> (points: i32)
    requires
        i32::MIN <= score_delta(
            level as int,
            lines_cleared as int,
            frames_down_held as int,
            combo as int,
            is_bravo,
        ) <= i32::MAX,
    ensures
        points == score_delta(
            level as int,
            lines_cleared as int,
            frames_down_held as int,
            combo as int,
            is_bravo,
        ),
{
    let total: i128 = line_clear_points(level, lines_cleared, frames_down_held, combo, is_bravo);
    total as i32
}

/// The points for a lock, in a type wide enough for every input.
pub(crate) fn line_clear_points(
    level: i32,
    lines_cleared: i32,
    frames_down_held: i32,
    combo: i32,
    is_bravo: bool,
) -> (points: i128)
    ensures
        points == score_delta(
            level as int,
            lines_cleared as int,
            frames_down_held as int,
            combo as int,
            is_bravo,
        ),
        -0x1_0000_0000_0000_0000_0000_0000 <= points <= 0x1_0000_0000_0000_0000_0000_0000,
{
    let sum: i64 = level as i64 + lines_cleared as i64 + 3;
    let base: i64 = if sum >= 0 {
        sum / 4
    } else {
        -((3 - sum) / 4)
    };
    let per_line: i128 = (base + frames_down_held as i64) as i128;
    proof {
        lemma_product_bound(per_line as int, lines_cleared as int, 0x1_0000_0000, 0x8000_0000);
        lemma_product_bound(
            per_line * lines_cleared,
            combo as int,
            0x1_0000_0000int * 0x8000_0000int,
            0x8000_0000,
        );
    }
    let bravo: i128 = if is_bravo {
        4
    } else {
        1
    };
    per_line * lines_cleared as i128 * combo as i128 * bravo
}

/// Books a lock that cleared `lines_cleared` rows with down held for
/// `frames_down_held` ticks: the score grows by what the lock is worth on
/// the game's level, with its combo, and fourfold on an empty playfield;
/// the level grows by the rows cleared, at most by 999; the grade follows
/// the score.
pub fn update_record(state: &mut GameState, lines_cleared: i32, frames_down_held: i32)
    requires
        i32::MIN <= old(state).player_record.score + score_delta(
            old(state).level as int,
            lines_cleared as int,
            frames_down_held as int,
            old(state).current_combo as int,
            grid_empty(old(state).board@),
        ) <= i32::MAX,
        i32::MIN <= level_after_lock(old(state).level as int, lines_cleared as int) <= i32::MAX,
    ensures
        final(state).player_record.score == old(state).player_record.score + score_delta(
            old(state).level as int,
            lines_cleared as int,
            frames_down_held as int,
            old(state).current_combo as int,
            grid_empty(old(state).board@),
        ),
        final(state).level == level_after_lock(old(state).level as int, lines_cleared as int),
        final(state).player_record.grade == graded(
            final(state).player_record.score as int,
            old(state).player_record.gm_requirements,
        ),
        *final(state) == (GameState {
            level: final(state).level,
            player_record: PlayerRecord {
                score: final(state).player_record.score,
                grade: final(state).player_record.grade,
                ..old(state).player_record
            },
            ..*old(state)
        }),
{
    let is_bravo = state.board.is_empty();
    let points = line_clear_points(
        state.level,
        lines_cleared,
        frames_down_held,
        state.current_combo,
        is_bravo,
    );
    state.player_record.score = (state.player_record.score as i128 + points) as i32;
    state.level += if lines_cleared > 999 {
        999
    } else {
        lines_cleared
    };
    state.player_record.grade = get_grade(&state.player_record);
}

/// Without the highest grade, a higher score never earns a lower grade.
pub proof fn law_grade_grows_with_score(low: int, high: int, req: GMRequirements)
    requires
        low <= high,
        !gm_met(req),
    ensures
        graded(low, req).rank() <= graded(high, req).rank(),
        score_grade(low).rank() <= score_grade(high).rank(),
{
}

/// The grade that a score earns is the highest whose threshold the score
/// has reached: a grade below `GM` ranks no higher than the one earned
/// exactly when it needs no score or its threshold is not above the score.
pub proof fn law_grade_is_highest_reached(score: int, grade: Grade)
    requires
        grade != Grade::GM,
    ensures
        grade.rank() <= score_grade(score).rank() <==> (grade.threshold() matches Some(t) ==> t
            <= score),
{
}

/// The highest grade is earned exactly when every checkpoint has been
/// passed, each with at least its score and after more than its time; then
/// it is earned whatever the score is.
pub proof fn law_gm_needs_every_checkpoint(score: int, req: GMRequirements)
    ensures
        graded(score, req) == Grade::GM <==> gm_met(req),
        gm_met(req) <==> {
            &&& req.three_hundred matches Some(a)
            &&& req.five_hundred matches Some(b)
            &&& req.game_end matches Some(c)
            &&& a.score >= 12_000 && a.time > 255 * NANOS_PER_SECOND
            &&& b.score >= 40_000 && b.time > 450 * NANOS_PER_SECOND
            &&& c.score >= 126_000 && c.time > 810 * NANOS_PER_SECOND
        },
{
}

/// Where no checkpoint was passed with exactly its least score, the highest
/// grade is earned only with every least score and every least time
/// exceeded.
pub proof fn law_gm_exceeds_minimums(req: GMRequirements)
    requires
        req.three_hundred matches Some(a) ==> a.score != 12_000,
        req.five_hundred matches Some(b) ==> b.score != 40_000,
        req.game_end matches Some(c) ==> c.score != 126_000,
        gm_met(req),
    ensures
        req.three_hundred matches Some(a) && a.score > 12_000 && a.time > 255 * NANOS_PER_SECOND,
        req.five_hundred matches Some(b) && b.score > 40_000 && b.time > 450 * NANOS_PER_SECOND,
        req.game_end matches Some(c) && c.score > 126_000 && c.time > 810 * NANOS_PER_SECOND,
{
}

} // verus!
