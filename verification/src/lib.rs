//! Verified core of a Lightning Network payment API: invoice checks, node
//! response mapping, token checks and the scheduler's decisions.
pub mod error;
pub mod text;
pub mod functions;
pub mod utils;
pub mod modelsext;
pub mod lightning;
pub mod models;
pub mod authorization;
pub mod settings;
pub mod invoice_handler;
pub mod invoice;
pub mod scheduler;
pub mod lnreport;
pub mod lightning_c;
pub mod lightning_lnd;
pub mod lnurl;
