//! The records that creating and updating an invoice write to the store.
pub mod create;
pub mod update;
