//! The values exchanged with the game host.

pub mod request;
pub mod response;
