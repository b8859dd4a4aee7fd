//! Named connection profiles for a remote-login client: the store of
//! profiles and its file format, the reading of the command line, and the
//! commands that add, list, remove and connect.
//!
//! The library decides and computes; it reads no file and starts no
//! process. Its caller hands it what was read and carries out what it
//! hands back.

pub mod commands;
pub mod config;
pub mod failure;
pub mod json;
pub mod profile;
pub mod resolver;
pub mod schema;
pub mod store;
pub mod text;

pub use crate::commands::{Effect, Exit, Found, Launch, Loaded, Masuk, Saved};
pub use crate::config::Config;
pub use crate::failure::Failure;
pub use crate::json::Json;
pub use crate::profile::HostConfig;
pub use crate::resolver::{resolve, route, Action, Command, Route};
pub use crate::store::ProfileStore;
