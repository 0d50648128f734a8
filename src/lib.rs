//! Identity and consistency core of a content-sharing backend: sequence
//! allocation, per-user rating ledgers, bearer credentials and the request
//! authentication that checks them.

pub mod access;
pub mod account;
pub mod credentials;
pub mod error;
pub mod posts;
pub mod rating;
pub mod sequence;
pub mod store;
pub mod user;
