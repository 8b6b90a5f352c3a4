//! Installation pipeline for a multi-component desktop application.
//!
//! The library holds every decision of the pipeline: where the application
//! is installed, which download URL serves each component, when a previous
//! installation may be removed, what progress is reported, where archive
//! entries land, which files and registry values the platform's finalization
//! writes, and in which order the stages run. The host program performs the
//! network, disk and registry work that these decisions describe.

pub mod error;
pub mod platform;
pub mod text;
pub mod path;
pub mod downloader;
pub mod setup;
pub mod orchestrator;
