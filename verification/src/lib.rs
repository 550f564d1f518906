//! A client for the HTTP control plane of the fleet unit scheduler.
//!
//! The crate holds the typed model of units, unit states and machines, the
//! mapping between that model and the JSON the daemon speaks, the
//! classification of failed responses, the request side of every operation,
//! and a bounded polling primitive for reads that lag behind accepted writes.
//! The network itself is supplied by the caller as a transport function.
pub mod text;
pub mod json;
pub mod codec;
pub mod error;
pub mod schema;
pub mod serialize;
pub mod urls;
pub mod transport;
pub mod query;
pub mod client;
pub mod poll;
pub mod pagination;

pub use client::Client;
pub use error::{ErrorKind, FleetError};
pub use json::JsonValue;
pub use poll::{poll, poll_step, PollError, PollStep};
pub use schema::{
    Machine, MachinePage, Unit, UnitOption, UnitPage, UnitState, UnitStatePage, UnitStates,
};
pub use transport::{Method, Request, Response};
