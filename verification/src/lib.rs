//! A verified core for a terminal front-end around a time-tracking
//! command-line tool.
//!
//! The library holds everything that can be stated and proved: the screen
//! state machine driven by keyboard events and timer ticks, the argument
//! lists handed to the external tool, the normalisation of its output into
//! panel text, the validation of prompt input, the terminal-session
//! discipline, and the pure mapping from application state to a screen
//! layout. The surrounding binary owns the terminal, spawns the tool and
//! feeds the results back in as plain values.

pub mod controller;
pub mod gateway;
pub mod prompt;
pub mod session;
pub mod state;
pub mod view;
