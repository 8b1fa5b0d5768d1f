//! Triage library for open pull requests: it normalizes raw search results,
//! filters them against user-selected rules, computes a weighted priority
//! score per pull request, ranks the survivors, and classifies already-given
//! reviews that deserve a second look.
//!
//! All scores are exact fixed-point integers in units of 1/3000 of a score
//! point, so ranking needs no floating-point arithmetic.

pub mod blame;
pub mod cli;
pub mod error;
pub mod followup;
pub mod normalize;
pub mod pattern;
pub mod query;
pub mod rank;
pub mod raw;
pub mod render;
pub mod schedule;
pub mod score;
pub mod strfmt;
pub mod timeutil;
pub mod types;
