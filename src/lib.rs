//! Media-key remapping for a music player: the decisions behind the input
//! hooks, the application-command message, and the search for the player's
//! window, each stated and proved over plain values.

pub mod command;
pub mod hooks;
pub mod locator;
