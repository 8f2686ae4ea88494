//! Resilient, cascading LLM inference across multiple providers.
//!
//! The library holds the decisions of a cascade run (which entry is tried next,
//! which cooldown an entry gets, what a total failure reports), the request
//! bodies and response parsing of each provider protocol, the configuration
//! model and the helpers of the command-line front end.  Network, database,
//! keyring and file work is done by the caller, which hands the outcomes back.
#![allow(unused_imports)]

pub mod text;
pub mod json;
pub mod models;
pub mod named_map;
pub mod config;
pub mod error;
pub mod providers;
pub mod cascade;
pub mod cascade_laws;
pub mod protocol_laws;
pub mod text_laws;
pub mod secrets;
pub mod order;
pub mod keys;
pub mod setup;
pub mod wizard;
pub mod persistence;
pub mod cli;
