//! Session and second-factor core: access/refresh token issuance and
//! single-use rotation over a Redis-like cache store, TOTP enrollment and
//! verification, one-time backup codes, and the cache-aside policy used by
//! the user and item read paths.
//!
//! All state the protocol depends on (the cache store, the user directory)
//! is modelled as verified in-memory structures; network and database
//! round trips belong to the surrounding application, which feeds this
//! library plain values.

pub mod api;
pub mod backup;
pub mod cache;
pub mod errors;
pub mod password;
pub mod session;
pub mod todo;
pub mod token;
pub mod totp;
pub mod user;
pub mod userstore;
