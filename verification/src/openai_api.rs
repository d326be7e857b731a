//! The groups of endpoints. Each group borrows the transport and adds
//! nothing to it but the paths it targets.

pub mod assistants;
pub mod audio;
pub mod client;
pub mod completion;
pub mod embeddings;
pub mod fine_tuning;
pub mod images;
pub mod moderations;
pub mod projects;
pub mod threads;
pub mod vectors;
