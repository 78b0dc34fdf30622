//! The proxy server: its tables, the handlers of its two kinds of links, and the meeting of the
//! two sides of a connection.

pub mod conn;
pub mod agents;
pub mod agent;
pub mod client;
pub mod session;
pub mod receiving;
pub mod laws;
