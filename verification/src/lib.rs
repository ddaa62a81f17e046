//! Verified core of the GooberBlox launcher: digest formatting, launch-URI
//! handling, download bookkeeping, and the decision machines that drive the
//! installer and the update check.

pub mod hex;
pub mod digest;
pub mod log;
pub mod launch;
pub mod download;
pub mod registry;
pub mod install;
pub mod update;
pub mod terminal;
