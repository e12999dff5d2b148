//! Launch and configuration logic for a context-server extension that installs
//! the `@mui/mcp` helper package on demand and spawns it with Node.
//!
//! The library holds the decisions: which environment the helper gets, where
//! the helper lives under the install site, which disk and host actions a
//! launch needs and in what order, and how the configuration descriptor is
//! assembled. The host calls (settings lookup, file probes, the package
//! installer, the Node path) are performed by the caller and fed back in.

pub mod config;
pub mod error;
pub mod launch;
pub mod layout;
pub mod settings;
