//! A per-user object storage gateway: bearer-token authentication, object-name
//! validation, an object-count quota and the decisions behind upload, download
//! and delete, each stated as a contract and proved.

pub mod names;
pub mod quota;
pub mod errors;
pub mod principal;
pub mod gateway;
pub mod bearer;
pub mod token;
pub mod jwks;
pub mod introspect;
pub mod symmetric;
pub mod authenticator;
pub mod config;
