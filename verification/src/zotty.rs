//! The second generation of the bot: its configuration, card assets, guild
//! options and web dashboard.

pub mod config;
pub mod image_utils;
pub mod options;
pub mod web;
