//! Decision logic of a small plugin for a virtual-machine host.
//!
//! The host loads the plugin, hands it an API table and a hook table, and later
//! calls the hooks the plugin installed. Everything the plugin decides (whether
//! to accept the host, which status to hand back, which line to put in its log,
//! how the output of a guest process is collected) lives here as functions on
//! plain values, each with a contract.

pub mod decimal;
pub mod host;
pub mod messages;
pub mod plugin;
pub mod socket;
pub mod version;
