//! Verified core of the Zotty Discord bot: levelling rules, rank and
//! leaderboard arithmetic, command-argument parsing and the text helpers
//! used to render cards and messages.

pub mod text;
pub mod commands;
pub mod ranks;
pub mod levels;
pub mod database;
pub mod config;
pub mod zotty;
pub mod help;
