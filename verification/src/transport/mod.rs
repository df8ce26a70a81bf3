//! Exchanges, sessions, packets and the pipes that carry them.
pub mod calls;
pub mod exchange;
pub mod laws;
pub mod network;
pub mod packet;
pub mod pipe;
pub mod session;
pub mod shared;
