//! Core of a small record-keeping HTTP service: validated domain operations
//! over an append-only store of user and subscriber rows, with the mapping
//! from operation outcomes to HTTP statuses and wire-format bodies.
//!
//! The surrounding process (listener, routing, the relational store itself)
//! is an external collaborator; this crate holds the logic worth stating
//! contracts about: input validation, id generation, timestamp handling,
//! error translation and serialization.

pub mod controller;
pub mod ident;
pub mod json;
pub mod store;
pub mod subscriptions;
pub mod time;
pub mod user;
