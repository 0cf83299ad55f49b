//! The name under which a server is addressed.
use vstd::prelude::*;
use crate::pki::SubjectName;

verus! {

/// A DNS name.
#[derive(Debug)]
pub struct DnsName(pub String);

/// The octets of an IP address, in network byte order.
#[derive(Debug, Clone, Copy)]
pub enum IpAddr {
    /// An IPv4 address.
    V4([u8; 4]),
    /// An IPv6 address.
    V6([u8; 16]),
}

/// Encodes ways a client can know the expected name of the server.
///
/// The view of it is the name that a certificate is asked to be valid for.
#[derive(Debug)]
pub enum ServerName {
    /// The server is identified by a DNS name.
    DnsName(DnsName),
    /// The server is identified by an IP address.
    IpAddress(IpAddr),
}

impl View for ServerName {
    type V = SubjectName;

    open spec fn view(&self) -> SubjectName {
        match *self {
            ServerName::DnsName(name) => SubjectName::DnsName(name.0@),
            ServerName::IpAddress(IpAddr::V4(octets)) => SubjectName::IpAddress(octets@),
            ServerName::IpAddress(IpAddr::V6(octets)) => SubjectName::IpAddress(octets@),
        }
    }
}

} // verus!
