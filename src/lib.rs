//! A side-scrolling bird-and-pipes arcade game: the per-frame state machine,
//! entity kinematics, collision and scoring, and the per-difficulty best scores.
//!
//! All lengths are integers in milli-pixels (a thousandth of a pixel) and all
//! durations are counted in half-ticks: a normal frame lasts two half-ticks and a
//! slow-motion frame one, so slow motion halves every per-frame quantity exactly.
pub mod config;
pub mod entities;
pub mod scores;
pub mod random;
pub mod game;
pub mod laws;
