//! Scaffolding of audio-plugin projects: configuration, source templates and
//! manifest edits.

pub mod categories;
pub mod config;
pub mod document;
pub mod manifest;
pub mod options;
pub mod plan;
pub mod session;
pub mod templates;
