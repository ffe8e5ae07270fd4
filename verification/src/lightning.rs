//! The LND REST client's data and the logic around its requests and replies.
pub mod invoice;
pub mod types;
pub mod connector;
