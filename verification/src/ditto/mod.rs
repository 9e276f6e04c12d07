//! The Eclipse Ditto integration: entity data, the WebSocket protocol and HTTP API
//! requests, DevOps commands, and the connections the operator configures.
pub mod api;
pub mod client;
pub mod connection;
pub mod data;
pub mod devops;
pub mod operator;
pub mod protocol;
pub mod reconcile;
