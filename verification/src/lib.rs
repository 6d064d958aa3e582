//! A verified core for a terminal roster browser.
//!
//! The library models a fixed roster of players fetched once at startup,
//! a selection state machine driven by keyboard events, and a pure
//! projection of that state into the rows and panes that a terminal
//! front end draws.

pub mod fetch;
pub mod json;
pub mod players;
pub mod render;
pub mod schema;
pub mod state;
pub mod text;
