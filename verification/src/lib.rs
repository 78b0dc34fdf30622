//! The rules of a reverse TCP proxy, verified.
//!
//! A *proxy server* joins two kinds of peers. An *agent* owns the public ports; a *client* sits
//! next to the service that is to be published. A client logs in for one of the agent's ports,
//! the agent listens there, and each connection it accepts is carried through the server to the
//! client and from there to the service.
//!
//! The library holds the tables and the decisions of the three programs. It performs no input or
//! output: it is told what happened and answers with what is to be done.

pub mod protocol;
pub mod link;
pub mod seed;
pub mod timeout;
pub mod channel;
pub mod server;
pub mod table;
pub mod agent;
pub mod client;
pub mod laws;
