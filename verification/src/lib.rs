//! Verified core of the Living Landz game server: the rules, caches and
//! encoders that decide what the server does, separated from its I/O.

pub mod dev;
pub mod exploration;
pub mod text;
pub mod grid;
pub mod actions;
pub mod units;
pub mod networking;
pub mod handlers;
mod random;
pub mod population;
pub mod encoding;
pub mod auth;
pub mod http;
pub mod road;
pub mod database;
pub mod maps;
pub mod cli;
pub mod territory;
pub mod map_file;
