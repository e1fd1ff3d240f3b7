//! Typed client layer for a multi-domain payment-platform API.
//!
//! The crate translates domain operations ("capture a transaction", "create a
//! checkout session") into resource paths and adapter calls, and provides
//! fluent request builders whose required-field validation happens in a single
//! terminal `build` step.

pub mod adapters;
pub mod client;
pub mod error;
pub mod session_types;
pub mod sessions;
pub mod text;
pub mod transactions;
