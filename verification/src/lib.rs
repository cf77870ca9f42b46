//! Client core for the Datto RMM REST API.
//!
//! The crate holds the two pieces of logic a Datto RMM client has of its own:
//! the registry of regional platforms, and the cache that keeps one OAuth 2.0
//! access token and decides when it has to be fetched again. Nothing here
//! performs I/O: the caller sends the request this crate describes and hands
//! back what the token endpoint answered, together with a clock reading.

pub mod client;
pub mod error;
pub mod platforms;
pub mod status;
pub mod token;
pub mod trusted;

pub use client::{Credentials, DattoClient, FetchOutcome, TokenCheck, TokenRequest};
pub use error::Error;
pub use platforms::{Platform, PlatformParseError};
pub use status::StatusCode;
pub use token::TokenState;
