//! Identity and access control for a listening-history service: password
//! policy, bearer-token issuance and revocation, request identity
//! resolution, and per-request authorization decisions.

pub mod api;
pub mod clock;
pub mod config;
pub mod codec;
pub mod errors;
pub mod guard;
pub mod model;
pub mod ops;
pub mod request;
pub mod session;
pub mod store;
pub mod text;
pub mod token;
