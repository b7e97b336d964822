//! Protocol engine of a peer-to-peer distributed service framework.
//!
//! A node announces itself, discovers other nodes, subscribes to the data that
//! another node publishes and publishes signed, content-addressed objects to
//! its own subscribers. Transport and storage are abstract: the engine owns
//! one [`comms::Comms`] and one [`store::Store`] and is driven by repeated
//! calls of [`engine::Engine::tick`].
pub mod application;
pub mod comms;
pub mod endian;
pub mod engine;
pub mod error;
pub mod store;
pub mod types;
pub mod wire;
