//! Signs in to 1Password, reads a stored secret and hands it to the Cisco
//! AnyConnect client: the decisions of that run, as a state machine whose
//! caller runs the two programs.

pub mod anyconnect;
pub mod command;
pub mod config;
pub mod error;
pub mod onepassword;
pub mod orchestrator;
pub mod text;
