//! Message routing, per-guild prefix cache and presence rotation for a chat bot.

pub mod text;
pub mod models;
pub mod prefix;
pub mod commands;
pub mod router;
pub mod presence;
pub mod config;
pub mod report;
