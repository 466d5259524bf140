//! The decisions of a proxy and of the tools around it: which upstream peer a request goes to, who is
//! on the allow list of bridge validators and of walrus nodes, and where a snapshot is fetched from.
//!
//! Whatever waits for the network, the disk or the clock is left to the program that uses the
//! library: it hands in what it got, as plain values, and does what it is told.
pub mod bridge;
pub mod committee;
pub mod config;
pub mod edge;
pub mod environment;
pub mod headers;
pub mod keys;
pub mod rpc;
pub mod snapshot_config;
pub mod table;
pub mod text;
pub mod urls;
pub mod walrus;
