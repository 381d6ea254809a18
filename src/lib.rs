//! Ice: the verified core of a weather kiosk.
//!
//! The library holds the application state machine (what a completed fetch
//! does to the state, which timers run, what the screen shows) together with
//! the lookup tables and text formats it relies on. Network, file and window
//! plumbing live outside it and talk to it in plain values.

pub mod config;
pub mod geo;
pub mod text;
pub mod time;
pub mod ui;
pub mod units;
pub mod weather;
pub mod widgets;
