//! Core logic of the Drogue IoT cloud endpoints and operators, with contracts.
#![allow(unused_imports)]

pub mod auth;
pub mod command;
pub mod commands;
pub mod ditto;
pub mod downstream;
pub mod endpoint;
pub mod error;
pub mod event;
pub mod external;
pub mod http_sink;
pub mod id;
pub mod influx;
pub mod json;
pub mod kafka;
pub mod ordered;
pub mod process;
pub mod psk;
pub mod registry;
pub mod router;
pub mod sender;
pub mod sink;
pub mod status;
pub mod stream;
pub mod telemetry;
pub mod text;
pub mod ttn;
pub mod urls;
