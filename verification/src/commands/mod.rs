//! The decisions behind the user-interface commands.

pub mod error;
pub mod shred;
pub mod browser;
