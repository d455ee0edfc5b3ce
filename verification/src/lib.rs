//! The command logic of a Twitch streaming bot: it reads chat messages and
//! decides which OBS scenes, filters, sounds and AI generators to drive.
//! Everything here is pure computation on plain values; the program that
//! talks to OBS, Twitch, the database and the audio devices lives beside it.
pub mod deps;
pub mod files;
pub mod handlers;
pub mod image_generation;
pub mod images;
pub mod move_transition;
pub mod move_transition_effects;
pub mod music_scenes;
pub mod obs_bootstrap;
pub mod obs_combo;
pub mod obs_filters;
pub mod text;
