//! The client side of a connection: the client's address, the permissions
//! and their parsing, and the state a connection keeps.

pub mod client;
pub mod permission;
pub mod state;

pub use client::Client;
pub use permission::Permission;
pub use state::ConnectionState;
