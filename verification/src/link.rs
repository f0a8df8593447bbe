//! The link layer: the session engine, its lifecycle, and its errors.

pub mod connection_handler;
pub mod errors;
pub mod receive_handler;
