//! A stochastic tennis-match simulator: a scoring state machine that
//! replays points, games, sets and tiebreaks; a live win-probability model
//! recomputed after every point; and a batch layer that reduces many
//! independent matches into aggregate totals.
//!
//! All probabilities are carried as integers in thousandths (a value of 650
//! stands for 0.65), so every formula of the model is exact integer
//! arithmetic.
//!
//! - [`player`]: the immutable skill profile.
//! - [`scoring`]: the match state and its score transitions.
//! - [`probability`]: the live estimates, each clamped to its range.
//! - [`format`]: verified score and number formatting.
//! - [`runner`]: point, game, set and match loops over a point source.
//! - [`batch`]: batch simulation, reduction, and run planning.
//! - [`sink`]: the rendered log, header first, one row per point.
//! - [`rng`]: the trusted draws behind the random point source.

pub mod batch;
pub mod format;
pub mod player;
pub mod probability;
pub mod rng;
pub mod runner;
pub mod scoring;
pub mod sink;
