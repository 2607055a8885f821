//! A registry of rentable rooms with verified booking rules.
//!
//! Every room has a fixed capacity and a price per occupant. Callers create
//! rooms, book and unbook a place in them, and delete the rooms they own.
//! The rules for admission, removal and deletion are proved against a
//! mathematical model of the registry: a map from room numbers to room views.

pub mod error;
pub mod laws;
pub mod models;
pub mod principal;
pub mod registry;
pub mod rules;
