//! The full-screen interface: state, key handling and what the screen shows.
pub mod app;
pub mod events;
pub mod input;
pub mod view;
