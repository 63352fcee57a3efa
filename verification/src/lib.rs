//! Decides whether a shell command should run through the secret resolver,
//! and rebuilds its command line safely.

pub mod config;
pub mod hooks;
pub mod locate;
pub mod logic;
pub mod pattern;
pub mod quoting;
pub mod settings;
pub mod text;
