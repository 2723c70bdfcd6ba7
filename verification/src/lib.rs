//! Core logic of a desktop launcher for the llama.cpp server: languages and
//! translations, themes, launch configuration and command line, sampling
//! presets, console commands, server-log handling and the state machine of
//! the launcher window.

pub mod language;
pub mod text;
pub mod i18n;
pub mod theme;
pub mod config;
pub mod command;
pub mod logs;
pub mod props;
pub mod presets;
pub mod messages;
pub mod app;
