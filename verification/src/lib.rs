//! Frame-stepped simulation core of a falling-block puzzle game played by an
//! arcade ruleset: a 10 x 21 playfield, seven pieces with hand-authored
//! rotation shapes, wall kicks, delayed auto-shift, lock delay, a
//! history-biased randomizer, and combo and grade scoring.
//!
//! Every executable function carries a contract over a mathematical model of
//! the game, and Verus proves the body against it.
pub mod board;
pub mod game;
pub mod gravity;
pub mod movement;
pub mod piece;
pub mod scoring;
