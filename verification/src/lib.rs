//! Transport and address-family tags for connectivity establishment.

pub mod error;
pub mod ip;
pub mod laws;
pub mod network_type;
pub mod text;
