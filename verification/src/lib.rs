//! pacseek: search the official Arch repositories and the AUR, then install
//! or remove packages from a terminal interface.
pub mod cli;
pub mod error;
pub mod install;
pub mod config;
pub mod model;
pub mod output;
pub mod text;
pub mod search;
pub mod tui;
