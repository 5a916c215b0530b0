//! Common helpers.

pub mod file_utils;
pub mod host_port;
pub mod text;
