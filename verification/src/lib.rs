//! The parts of a Matter node that decide: which mDNS services are advertised
//! and how announcements and replies move through the packet pipes, and how an
//! exchange asks the transport to send, receive, acknowledge or close.
//!
//! Every function states in its contract what it returns and what it changes.
//! Sockets, timers and the executor are left to the caller, who hands in what
//! they delivered.
pub mod error;
pub mod mdns;
pub mod notification;
pub mod transport;
