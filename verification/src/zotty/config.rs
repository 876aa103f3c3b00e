//! The bot's configuration, as read from `resources/config.toml`.

use vstd::prelude::*;

verus! {

/// Everything the bot is configured with.
pub struct Config {
    pub token: String,
    pub prefix: String,
    pub colours: Colours,
    pub database: DatabaseOptions,
    pub modules: Modules,
    pub web: Web,
}

/// The embed colours, as `0xRRGGBB` values.
pub struct Colours {
    pub help: i32,
    pub moderator: i32,
    pub music: i32,
    pub commands: i32,
    pub error: i32,
    pub ranks: i32,
}

/// The kinds of database the bot can keep its records in.
#[derive(PartialEq, Eq, Structural)]
pub enum DatabaseType {
    Sqlite,
}

/// Where the records are kept.
pub struct DatabaseOptions {
    pub db_type: DatabaseType,
}

/// Settings of the bot's modules.
pub struct Modules {
    pub ranks: Ranks,
}

/// Settings of the ranks module.
pub struct Ranks {
    pub default_level_up_message: String,
}

/// Settings of the web dashboard.
pub struct Web {
    pub port: u16,
    pub oauth: OAuth,
}

/// The Discord OAuth application behind the dashboard.
pub struct OAuth {
    pub api_url: String,
    pub client_id: String,
    pub client_secret: String,
}

} // verus!
