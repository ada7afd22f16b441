//! IronVeil: the verified core of a privacy-focused operating system.
//!
//! The crate is organised after the system's four components: the Nexis
//! kernel, the privacy core, the user interface and the build tooling.
pub mod nexis_kernel;
pub mod text;
pub mod build_tools;
pub mod privacy_core;
pub mod ironveil_ui;
