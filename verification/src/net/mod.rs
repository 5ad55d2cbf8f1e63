//! Networking.
pub mod tcp;
