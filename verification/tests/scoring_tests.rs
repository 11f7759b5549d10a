use rand::rngs::StdRng;
use rand::SeedableRng;
use rgm::board::{Square, Tint};
use rgm::game::GameState;
use rgm::gravity::{Speed, SpeedCurve};
use rgm::piece::PieceType;
use rgm::scoring::{
    get_grade, get_line_clear_score, is_gm, update_record, GMCondition, GMRequirements, Grade,
    PlayerRecord, NANOS_PER_SECOND,
};

const SECOND: u128 = 1_000_000_000;

fn no_checkpoints() -> GMRequirements {
    GMRequirements { three_hundred: None, five_hundred: None, game_end: None }
}

/// Checkpoints that earn the highest grade with nothing to spare.
fn met_checkpoints() -> GMRequirements {
    GMRequirements {
        three_hundred: Some(GMCondition { score: 12_000, time: 255 * SECOND + 1 }),
        five_hundred: Some(GMCondition { score: 40_000, time: 450 * SECOND + 1 }),
        game_end: Some(GMCondition { score: 126_000, time: 810 * SECOND + 1 }),
    }
}

fn record(score: i32, gm_requirements: GMRequirements) -> PlayerRecord {
    PlayerRecord { score, gm_requirements, start_time: 0, grade: Grade::N9 }
}

fn game(level: i32, combo: i32, score: i32) -> GameState {
    let curve = SpeedCurve { base: Speed { rows: 1, frames: 4 }, steps: vec![] };
    let mut game = GameState::new(StdRng::seed_from_u64(3), curve, 0);
    game.level = level;
    game.current_combo = combo;
    game.player_record.score = score;
    game
}

#[test]
fn score_of_four_lines_on_level_100() {
    assert_eq!(get_line_clear_score(100, 4, 5, 2, false), 248);
}

#[test]
fn score_of_four_lines_that_empty_the_board() {
    assert_eq!(get_line_clear_score(100, 4, 5, 2, true), 992);
}

#[test]
fn score_rounds_the_quarter_up() {
    assert_eq!(get_line_clear_score(0, 1, 0, 1, false), 1);
    assert_eq!(get_line_clear_score(3, 1, 0, 1, false), 1);
    assert_eq!(get_line_clear_score(4, 1, 0, 1, false), 2);
    assert_eq!(get_line_clear_score(7, 1, 0, 1, false), 2);
    assert_eq!(get_line_clear_score(8, 1, 0, 1, false), 3);
    assert_eq!(get_line_clear_score(497, 3, 0, 1, false), 375);
    assert_eq!(get_line_clear_score(498, 3, 0, 1, false), 378);
}

#[test]
fn score_is_zero_without_lines_or_combo() {
    assert_eq!(get_line_clear_score(300, 0, 12, 5, true), 0);
    assert_eq!(get_line_clear_score(300, 2, 12, 0, true), 0);
}

#[test]
fn score_counts_the_ticks_that_down_was_held() {
    assert_eq!(get_line_clear_score(0, 1, 10, 1, false), 11);
    assert_eq!(get_line_clear_score(0, 2, 10, 3, false), 66);
    assert_eq!(get_line_clear_score(0, 2, 10, 3, true), 264);
}

#[test]
fn score_follows_the_formula_below_zero() {
    assert_eq!(get_line_clear_score(-5, 1, 0, 1, false), -1);
    assert_eq!(get_line_clear_score(-6, 1, 0, 1, false), -1);
    assert_eq!(get_line_clear_score(-9, 1, 0, 1, false), -2);
    assert_eq!(get_line_clear_score(-1, 1, 0, 1, false), 0);
}

#[test]
fn score_of_large_numbers_is_exact() {
    // (ceil(2_000_000_004 / 4) + 0) * 4 * 1 * 1
    assert_eq!(get_line_clear_score(2_000_000_000, 4, 0, 1, false), 2_000_000_004);
    assert_eq!(get_line_clear_score(i32::MAX, 1, 0, 1, false), 536_870_912);
}

#[test]
fn grade_follows_the_thresholds() {
    let table = [
        (0, Grade::N9),
        (399, Grade::N9),
        (400, Grade::N8),
        (799, Grade::N8),
        (800, Grade::N7),
        (1_399, Grade::N7),
        (1_400, Grade::N6),
        (1_999, Grade::N6),
        (2_000, Grade::N5),
        (3_499, Grade::N5),
        (3_500, Grade::N4),
        (5_499, Grade::N4),
        (5_500, Grade::N3),
        (7_999, Grade::N3),
        (8_000, Grade::N2),
        (11_999, Grade::N2),
        (12_000, Grade::N1),
        (15_999, Grade::N1),
        (16_000, Grade::S1),
        (21_999, Grade::S1),
        (22_000, Grade::S2),
        (29_999, Grade::S2),
        (30_000, Grade::S3),
        (39_999, Grade::S3),
        (40_000, Grade::S4),
        (51_999, Grade::S4),
        (52_000, Grade::S5),
        (65_999, Grade::S5),
        (66_000, Grade::S6),
        (81_999, Grade::S6),
        (82_000, Grade::S7),
        (99_999, Grade::S7),
        (100_000, Grade::S8),
        (119_999, Grade::S8),
        (120_000, Grade::S9),
        (i32::MAX, Grade::S9),
    ];
    for (score, grade) in table {
        assert_eq!(get_grade(&record(score, no_checkpoints())), grade, "score {}", score);
    }
}

#[test]
fn grade_of_a_negative_score_is_the_lowest() {
    assert_eq!(get_grade(&record(-1, no_checkpoints())), Grade::N9);
    assert_eq!(get_grade(&record(i32::MIN, no_checkpoints())), Grade::N9);
}

#[test]
fn grade_never_falls_as_the_score_grows() {
    let order = [
        Grade::N9,
        Grade::N8,
        Grade::N7,
        Grade::N6,
        Grade::N5,
        Grade::N4,
        Grade::N3,
        Grade::N2,
        Grade::N1,
        Grade::S1,
        Grade::S2,
        Grade::S3,
        Grade::S4,
        Grade::S5,
        Grade::S6,
        Grade::S7,
        Grade::S8,
        Grade::S9,
        Grade::GM,
    ];
    let mut last = 0;
    let mut score = -1_000;
    while score <= 130_000 {
        let grade = get_grade(&record(score, no_checkpoints()));
        let rank = order.iter().position(|g| *g == grade).unwrap();
        assert!(rank >= last, "score {}", score);
        assert!(rank < 18);
        last = rank;
        score += 50;
    }
    assert_eq!(last, 17);
}

#[test]
fn gm_needs_all_three_checkpoints() {
    assert!(is_gm(&record(0, met_checkpoints())));
    assert!(!is_gm(&record(200_000, no_checkpoints())));
    let mut req = met_checkpoints();
    req.three_hundred = None;
    assert!(!is_gm(&record(200_000, req)));
    let mut req = met_checkpoints();
    req.five_hundred = None;
    assert!(!is_gm(&record(200_000, req)));
    let mut req = met_checkpoints();
    req.game_end = None;
    assert!(!is_gm(&record(200_000, req)));
}

#[test]
fn gm_needs_every_least_score() {
    let mut req = met_checkpoints();
    req.three_hundred = Some(GMCondition { score: 11_999, time: 300 * SECOND });
    assert!(!is_gm(&record(0, req)));
    let mut req = met_checkpoints();
    req.five_hundred = Some(GMCondition { score: 39_999, time: 500 * SECOND });
    assert!(!is_gm(&record(0, req)));
    let mut req = met_checkpoints();
    req.game_end = Some(GMCondition { score: 125_999, time: 900 * SECOND });
    assert!(!is_gm(&record(0, req)));
}

#[test]
fn gm_needs_every_least_time_exceeded() {
    assert_eq!(NANOS_PER_SECOND, SECOND);
    let mut req = met_checkpoints();
    req.three_hundred = Some(GMCondition { score: 20_000, time: 255 * SECOND });
    assert!(!is_gm(&record(0, req)));
    let mut req = met_checkpoints();
    req.five_hundred = Some(GMCondition { score: 50_000, time: 450 * SECOND });
    assert!(!is_gm(&record(0, req)));
    let mut req = met_checkpoints();
    req.game_end = Some(GMCondition { score: 130_000, time: 810 * SECOND });
    assert!(!is_gm(&record(0, req)));
    let mut req = met_checkpoints();
    req.game_end = Some(GMCondition { score: 130_000, time: 0 });
    assert!(!is_gm(&record(0, req)));
    let mut req = met_checkpoints();
    req.game_end = Some(GMCondition { score: 130_000, time: u128::MAX });
    assert!(is_gm(&record(0, req)));
}

#[test]
fn grade_is_gm_when_the_checkpoints_are_met() {
    assert_eq!(get_grade(&record(0, met_checkpoints())), Grade::GM);
    assert_eq!(get_grade(&record(130_000, met_checkpoints())), Grade::GM);
    let mut req = met_checkpoints();
    req.game_end = None;
    assert_eq!(get_grade(&record(130_000, req)), Grade::S9);
}

#[test]
fn grade_names_are_the_variant_names() {
    let names = [
        (Grade::N9, "N9"),
        (Grade::N8, "N8"),
        (Grade::N7, "N7"),
        (Grade::N6, "N6"),
        (Grade::N5, "N5"),
        (Grade::N4, "N4"),
        (Grade::N3, "N3"),
        (Grade::N2, "N2"),
        (Grade::N1, "N1"),
        (Grade::S1, "S1"),
        (Grade::S2, "S2"),
        (Grade::S3, "S3"),
        (Grade::S4, "S4"),
        (Grade::S5, "S5"),
        (Grade::S6, "S6"),
        (Grade::S7, "S7"),
        (Grade::S8, "S8"),
        (Grade::S9, "S9"),
        (Grade::GM, "GM"),
    ];
    for (grade, name) in names {
        assert_eq!(grade.name(), name);
        assert_eq!(format!("{:?}", grade), name);
    }
}

#[test]
fn update_record_books_a_lock_on_a_board_that_is_not_empty() {
    let mut g = game(100, 2, 10);
    g.board.state[0][0] = Square::Filled(Tint::Piece(PieceType::T));
    update_record(&mut g, 4, 5);
    assert_eq!(g.player_record.score, 258);
    assert_eq!(g.level, 104);
    assert_eq!(g.player_record.grade, Grade::N9);
    assert_eq!(g.current_combo, 2);
}

#[test]
fn update_record_pays_fourfold_on_an_empty_board() {
    let mut g = game(100, 2, 0);
    update_record(&mut g, 4, 5);
    assert_eq!(g.player_record.score, 992);
    assert_eq!(g.level, 104);
    assert_eq!(g.player_record.grade, Grade::N7);
}

#[test]
fn update_record_without_lines_changes_nothing_but_the_grade() {
    let mut g = game(100, 0, 5_500);
    g.player_record.grade = Grade::N9;
    update_record(&mut g, 0, 30);
    assert_eq!(g.player_record.score, 5_500);
    assert_eq!(g.level, 100);
    assert_eq!(g.player_record.grade, Grade::N3);
}

#[test]
fn update_record_raises_the_level_by_999_at_most() {
    let mut g = game(100, 1, 0);
    g.board.state[0][0] = Square::Filled(Tint::Piece(PieceType::T));
    update_record(&mut g, 999, 0);
    assert_eq!(g.level, 1_099);
    // (ceil(1_099 / 4) + 0) * 999
    assert_eq!(g.player_record.score, 275 * 999);

    let mut g = game(100, 1, 0);
    g.board.state[0][0] = Square::Filled(Tint::Piece(PieceType::T));
    update_record(&mut g, 1_000, 0);
    assert_eq!(g.level, 1_099);
    assert_eq!(g.player_record.score, 275_000);
    assert_eq!(g.player_record.grade, Grade::S9);
}

#[test]
fn update_record_grades_by_the_checkpoints() {
    let mut g = game(100, 1, 0);
    g.player_record.gm_requirements = met_checkpoints();
    update_record(&mut g, 1, 0);
    assert_eq!(g.player_record.grade, Grade::GM);
    assert_eq!(g.player_record.gm_requirements, met_checkpoints());
    assert_eq!(g.player_record.start_time, 0);
}
