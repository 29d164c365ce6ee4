//! A bridge between an unbuffered TLS record engine and a non-blocking
//! byte-stream transport.

pub mod buffer;
pub mod connect;
pub mod connector;
pub mod cursor;
pub mod delivery;
pub mod error;
pub mod state;
pub mod stream;
pub mod traits;
pub mod utils;
