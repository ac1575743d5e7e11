//! The core of a modal terminal interface: the protocol between a screen
//! and the loop that hosts it, the help screen, and the status line.
//!
//! Nothing here touches the terminal. Every function that draws appends
//! text to a sink; the host sends the sink to the terminal and flushes it.

pub mod app_context;
pub mod app_state;
pub mod area;
pub mod commands;
pub mod doc_view;
pub mod errors;
pub mod help_states;
pub mod io;
pub mod layout;
pub mod screens;
pub mod status;
pub mod verb_store;
