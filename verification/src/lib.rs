//! Verified core of a request/response service that runs over a transport
//! whose connections come as two separately owned one-way streams.
//!
//! The crate holds the decisions and the data: the counter shared by the
//! handlers, the service and its requests, the pairing of the two stream
//! halves, and the life cycle of an accepted connection. Reading, writing
//! and scheduling are left to the program that drives these types.

pub mod client;
pub mod connection;
pub mod counter;
pub mod duplex;
pub mod listener;
pub mod schedule;
pub mod service;

pub use client::HelloClient;
pub use service::{HelloWorld, HelloWorldServer, HELLOWORLD_ALPN};
