//! Verified core of a data-pipeline node runtime: batch identifiers, the
//! in-memory batch cache, the receiver registry, the IPC protocol between a
//! user container and its data container, and the decisions the trackers
//! take on every request and database poll.
pub mod metadata;
pub mod mprc;
pub mod batch;
pub mod cache;
pub mod state;
pub mod ipc;
pub mod ipc_server;
pub mod ipc_client;
pub mod multi_sender;
pub mod tracker;
pub mod node;
pub mod monitor;
pub mod program;
pub mod models;
pub mod text;
pub mod incoming;
pub mod outgoing;
pub mod requests;
pub mod backend;
pub mod channel;
pub mod upstream;
pub mod stream;
