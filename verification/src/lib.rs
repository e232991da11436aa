//! Pip offline installation: packing a pip package with all its dependencies
//! into a checksummed archive, and installing it from that archive without a
//! network.
pub mod config;
pub mod digest;
pub mod files;
pub mod guarantees;
pub mod install;
pub mod laws;
pub mod names;
pub mod pack;
pub mod pypi;
pub mod text;
pub mod version;
