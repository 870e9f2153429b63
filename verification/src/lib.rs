//! A chess league in which two players register, play, and settle their games through covenant
//! transactions.
//!
//! The library decides; it does no outside work. An operation on the [`arena`] runs on the replies
//! collected so far and stops with the first request that has none (see [`dialogue`]), so that each
//! operation is a function of the arena, its arguments and the replies. Its contract says which
//! request comes next, which text a refusal carries, and how a finished operation changes the arena.
//! [`laws`] states what holds across operations. [`position_laws`], [`play_laws`], [`ending_laws`] and
//! [`league_laws`] state what each operation is for, in the numbers and texts that callers see;
//! [`record_laws`], [`reply_laws`] and [`view_laws`] state what is written down, heard and held.

pub mod arena;
pub mod chain;
pub mod dialogue;
pub mod endgame;
pub mod ending_laws;
pub mod error;
pub mod game;
pub mod hash;
pub mod laws;
pub mod league;
pub mod league_laws;
pub mod messages;
pub mod moves;
pub mod names;
pub mod orchestrator;
pub mod plan;
pub mod play;
pub mod play_laws;
pub mod position_laws;
pub mod rating;
pub mod record_laws;
pub mod reply_laws;
pub mod settlement;
pub mod signing;
pub mod status;
pub mod text;
pub mod view_laws;
