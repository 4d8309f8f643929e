//! The decisions of the XMake extension for the Zed editor.
//!
//! The extension starts the `xmake_ls` language server and debug adapters, and turns tasks into
//! debug scenarios. What it decides stands here; what it asks of the editor and the machine is a
//! [`host::Request`], and each [`host::Reply`] leads to the next step:
//!
//! - [`server`]: the command that starts the language server;
//! - [`debugger`]: the search for a debugger;
//! - [`adapter`]: the debug adapter of a session;
//! - [`locator`]: the debug scenario of a task.
//!
//! The modules whose names end in `laws` state what these steps come to in a [`world::World`], which
//! stays as it is meanwhile, and what holds of each step whatever is answered.

pub mod adapter;
pub mod adapter_laws;
pub mod config;
pub mod debugger;
pub mod env_map;
pub mod host;
pub mod json;
pub mod locator;
pub mod locator_laws;
pub mod platform;
pub mod scenario;
pub mod scenario_laws;
pub mod search_laws;
pub mod server;
pub mod server_laws;
pub mod settings;
pub mod start_laws;
pub mod text;
pub mod view_laws;
pub mod world;
