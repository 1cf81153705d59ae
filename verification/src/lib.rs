//! Wezlix: a launcher that runs the WezTerm terminal emulator with the Helix
//! editor as its child command, and a builder that lays out the application
//! bundle the launcher runs from.
//!
//! Paths are modelled as strings of characters separated by `/`. The
//! filesystem and process work itself (reading links, creating directories,
//! spawning the child) happens outside this crate; everything the launcher
//! and builder decide — which paths to use, which arguments to pass, which
//! environment pairs to add — is computed and specified here.

pub mod paths;
pub mod launcher;
pub mod envfile;
pub mod builder;
