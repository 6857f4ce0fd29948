//! A record-management backend for a small health-tracking domain.
//!
//! The library stores users, health records, medication reminders and
//! virtual consultations in independent key-value stores, hands out
//! globally unique identifiers from a single durable counter, and
//! enforces validation and referential-integrity rules on every
//! mutation.

pub mod counter;
pub mod laws;
pub mod records;
pub mod service;
pub mod store;
