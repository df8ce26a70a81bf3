//! What is advertised.
use vstd::prelude::*;

verus! {

/// Why a service is advertised.
#[derive(Clone, Copy, Debug, PartialEq, Eq, Structural)]
pub enum ServiceMode {
    /// The node belongs to a fabric.
    Commissioned,
    /// The node can be commissioned, and is told from others by its discriminator.
    Commissionable(u16),
}

/// A DNS-SD service.
#[derive(Debug)]
pub struct Service {
    /// The name of the instance.
    pub name: String,
    /// The type of the service, such as `_matter`.
    pub service: String,
    /// The protocol of the service, such as `_tcp`.
    pub protocol: String,
    pub port: u16,
    pub service_subtypes: Vec<String>,
    /// The keys and values of the TXT record.
    pub txt_kvs: Vec<(String, String)>,
}

/// The host that services are advertised on.
#[derive(Clone, Copy, Debug)]
pub struct Host<'a> {
    pub id: u16,
    pub hostname: &'a str,
    pub ip: [u8; 4],
    pub ipv6: Option<[u8; 16]>,
}

} // verus!
