//! Locates, installs and caches the `iwes` language-server binary.
//!
//! The library holds the decisions: which release asset fits a platform,
//! where it is unpacked, when a download can be skipped and which stale
//! directories go. The host performs the side effects that the decisions
//! call for and reports back what happened.
pub mod error;
pub mod guarantees;
pub mod install;
pub mod platform;
pub mod provider;
pub mod release;
