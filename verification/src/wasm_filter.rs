//! The rules of the proxy-side request filter: which requests a service's
//! mapping rules meter, and which requests a token's claims let through.

pub mod config;
pub mod jwt;
