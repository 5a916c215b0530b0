//! Control plane core: a versioned configuration store, the export of
//! service descriptions into cluster and listener resources, and the
//! discovery engines that serve those resources on version change.

pub mod cache;
pub mod configuration;
pub mod discovery;
pub mod envoy_cds;
pub mod envoy_helpers;
pub mod envoy_lds;
pub mod oidc;
pub mod processor;
pub mod service;
pub mod util;
pub mod wasm_filter;
