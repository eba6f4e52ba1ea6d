//! A safe, verified session layer over an external ICE connectivity engine.
//!
//! Each agent owns one session: it gathers local candidates, exchanges
//! descriptions and (in trickle mode) candidates with its peer out of band,
//! and, once the engine has selected a working candidate pair, carries
//! datagrams. Engine events reach the application through a closure-based
//! [`Handler`] registry. The protocol-phase rules — no remote candidates
//! before a remote description, no sending before a pair is selected — are
//! enforced here and stated in the contracts.

pub use addr::{IpAddress, SocketAddress};
pub use agent::{Agent, Builder, Description, SelectedPair};
pub use config::{Configuration, ServerRef};
pub use error::Error;
pub use handler::{empty_handler, Handler};
pub use log::LogLevel;
pub use server::{Builder as ServerBuilder, Credentials as ServerCredentials, Server};
pub use state::State;

pub mod addr;
pub mod agent;
pub mod config;
pub mod error;
pub mod handler;
pub mod log;
pub mod server;
pub mod state;
