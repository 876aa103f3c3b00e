//! The first bot's configuration, as read from `config.toml`.

use vstd::prelude::*;

verus! {

/// Everything the first bot is configured with.
pub struct Config {
    pub token: String,
    pub prefix: String,
    pub colours: Colours,
}

/// The embed colours, as `0xRRGGBB` values.
pub struct Colours {
    pub help: i32,
    pub moderator: i32,
    pub music: i32,
    pub commands: i32,
}

} // verus!
