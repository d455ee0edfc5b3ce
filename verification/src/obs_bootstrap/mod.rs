//! Creating the filters that the bot's effects drive.
pub mod bootstrap;
