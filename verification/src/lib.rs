//! Decktricks: tools for making life easier on the Steam Deck.
//!
//! The library is organised around tricks (things that can be installed or run),
//! actions (what can be done with a trick) and providers (what carries an action out).
//! Everything here is plain logic: the program around it runs the system commands
//! that the providers plan, reads and writes files, and talks to the network.

pub mod text;
pub mod command;
pub mod errors;
pub mod tricks_config;
pub mod actions;
pub mod logging;
pub mod system_command;
pub mod context;
pub mod utils;
pub mod providers;
pub mod tricks_status;
pub mod add_to_steam;
pub mod executor;
pub mod update;
pub mod cli;
pub mod tail_watcher;
pub mod provider_types;
pub mod gui_logs;
pub mod gui;
pub mod gui_build;
