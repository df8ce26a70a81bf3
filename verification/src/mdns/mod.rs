//! The mDNS services that a node advertises.
//!
//! Two backends keep them: [`builtin`] answers queries itself, [`astro`] registers
//! the services with the DNS-SD daemon of the system.
pub mod astro;
pub mod builtin;
pub mod calls;
pub mod laws;
pub mod service;
pub mod table;
