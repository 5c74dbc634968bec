//! Automatic swap configuration for a systemd swap manager.
//!
//! The library decides, from a few facts about the machine (filesystem
//! type of the swap location, free disk space, RAM size, whether the system
//! runs live from a read-only medium), which swap layout to use, and renders
//! that decision as the configuration keys the rest of the daemon reads.

pub mod autoconfig;
pub mod decimal;
pub mod defaults;
