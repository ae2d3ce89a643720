//! Core logic of a multicast relay: configuration models, the interface
//! chooser, the encrypted message envelope and the message-routing decisions.

pub mod text;
pub mod aesgcm;
pub mod models;
pub mod infrastructure;
pub mod server_manager;
pub mod server_thread;
pub mod net_chooser;
