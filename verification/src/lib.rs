//! Keep a machine awake: resolve a polling configuration from command-line
//! option values, and decide what the keep-awake loop must assert to the
//! operating system on every iteration.
//!
//! The option-parsing front end and the OS call itself live outside this
//! library; everything that decides (timer parsing and clamping, mode
//! resolution, the per-iteration flag sequence) is verified here.

pub mod config;
pub mod timer;
pub mod wake;
