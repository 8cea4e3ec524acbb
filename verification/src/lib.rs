//! Verified core of the ESP CSI collection command line: the runtime
//! configuration model, the command grammar and its effect on the
//! configuration, the serial line preprocessor, and the plan that a
//! collection run is built from.

pub mod text;
pub mod bounded;
pub mod args;
pub mod mac;
pub mod config;
pub mod commands;
pub mod editor;
pub mod run;
pub mod info;
pub mod laws;
