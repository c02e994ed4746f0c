//! Persistence rules of a farm early-warning desktop application.
//!
//! The application keeps one list of farm records in one JSON file. This crate
//! holds everything about that which can be decided without touching the disk:
//! where the file lies, what is written into it, how its contents are read
//! back, and which steps a save goes through. The caller performs the steps.

pub mod commands;
pub mod farm;
pub mod job;
pub mod json;
pub mod location;
pub mod state;

pub use commands::{greet, load, save};
pub use farm::Farm;
pub use job::{SaveAction, SaveJob, Stage};
pub use location::{cache_dir, path_to_cache, Location};
pub use state::{LoadError, SaveError, SavedState};
