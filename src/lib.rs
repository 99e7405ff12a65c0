//! Compatibility detection and reporting for a GPU computing toolkit: the
//! knowledge base, the parsers of the probes' output, the installation scan's
//! rules and the analysis that turns all of it into one verdict.
//!
//! The probes' access to processes, files and the environment stays with the
//! caller; every function here takes what was read and decides.
pub mod text;
pub mod version;
pub mod error;
pub mod registry;
pub mod gpu;
pub mod driver;
pub mod compiler;
pub mod distro;
pub mod storage;
pub mod security;
pub mod wsl;
pub mod visual_studio;
pub mod cuda;
pub mod report;
pub mod render;
pub mod cli;
pub mod interactive;
pub mod config;
pub mod output;
pub mod managers;
pub mod versions;
