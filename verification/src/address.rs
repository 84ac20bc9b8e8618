//! Addresses as plain values: the host side of a mapping and the network of a
//! container.

use crate::error::{failure, BoundaryError, ErrorKind, ErrorView};
use crate::text::joined;
use core::str::FromStr;
use ipnetwork::{IpNetwork, IpNetworkError};
use vstd::prelude::*;

verus! {

/// A socket address: an IP address with a port. An IPv4 address is held as its
/// 32 bits and an IPv6 address as its 128 bits, first octet highest.
#[derive(Clone, Copy, Debug, PartialEq, Eq, Structural)]
#[allow(inconsistent_fields)]
pub enum SocketAddress {
    V4 { address: u32, port: u16 },
    V6 { address: u128, port: u16, flow_info: u32, scope_id: u32 },
}

/// The network of a container: an IP address and the length of its prefix.
#[derive(Clone, Copy, Debug, PartialEq, Eq, Structural)]
#[allow(inconsistent_fields)]
pub enum ContainerNetwork {
    V4 { address: u32, prefix: u8 },
    V6 { address: u128, prefix: u8 },
}

impl ContainerNetwork {
    /// A prefix is no longer than the address: 32 bits for IPv4, 128 for IPv6.
    pub open spec fn is_well_formed(self) -> bool {
        match self {
            ContainerNetwork::V4 { prefix, .. } => prefix <= 32,
            ContainerNetwork::V6 { prefix, .. } => prefix <= 128,
        }
    }

    /// The length of the prefix.
    pub fn prefix(&self) -> (p: u8)
        ensures
            self matches ContainerNetwork::V4 { prefix, .. } ==> p == prefix,
            self matches ContainerNetwork::V6 { prefix, .. } ==> p == prefix,
    {
        match self {
            ContainerNetwork::V4 { prefix, .. } => *prefix,
            ContainerNetwork::V6 { prefix, .. } => *prefix,
        }
    }
}

/// `IpNetworkError` of `ipnetwork`: why a text was not read as a network.
/// Nothing is read from it; it is carried to where the failure is reported.
#[verifier::external_type_specification]
#[verifier::external_body]
pub struct ExIpNetworkError(IpNetworkError);

/// The network that `ipnetwork` reads in a text, `None` where it reads none.
pub uninterp spec fn parsed_network(text: Seq<char>) -> Option<ContainerNetwork>;

/// The failure reported for a text that is no network.
pub open spec fn network_failure(text: Seq<char>) -> ErrorView {
    failure(ErrorKind::ParseError, "parse container network "@ + text)
}

/// The network of a container as read from `text`, or the failure that names
/// the text.
pub open spec fn network_result(text: Seq<char>) -> Result<ContainerNetwork, ErrorView> {
    match parsed_network(text) {
        Some(network) => Ok(network),
        None => Err(network_failure(text)),
    }
}

/// The result of `parse_network`, with the error by its view.
pub open spec fn network_view(result: Result<ContainerNetwork, BoundaryError>) -> Result<
    ContainerNetwork,
    ErrorView,
> {
    match result {
        Ok(network) => Ok(network),
        Err(e) => Err(e@),
    }
}

/// `IpNetwork::from_str` of `ipnetwork`: the network written in `text` as an
/// address, or as an address, a slash and a prefix length or netmask. What it
/// reads depends on the text alone; an IPv4 network it accepts has a prefix of
/// at most 32 bits, an IPv6 network one of at most 128. The address and the
/// prefix are handed on as integers.
#[verifier::external_body]
fn ip_network_from_str(text: &str) -> (network: Result<ContainerNetwork, IpNetworkError>)
    ensures
        network is Ok <==> parsed_network(text@) is Some,
        network matches Ok(n) ==> parsed_network(text@) == Some(n) && n.is_well_formed(),
{
    match IpNetwork::from_str(text) {
        Ok(IpNetwork::V4(n)) => Ok(
            ContainerNetwork::V4 { address: u32::from(n.ip()), prefix: n.prefix() },
        ),
        Ok(IpNetwork::V6(n)) => Ok(
            ContainerNetwork::V6 { address: u128::from(n.ip()), prefix: n.prefix() },
        ),
        Err(e) => Err(e),
    }
}

/// What is reported for `text` once the parser has answered: the network it
/// read, or a parse failure that names the text.
pub fn network_outcome(text: &str, parsed: Result<ContainerNetwork, IpNetworkError>) -> (result:
    Result<ContainerNetwork, BoundaryError>)
    ensures
        parsed matches Ok(n) ==> network_view(result) == Ok::<ContainerNetwork, ErrorView>(n),
        parsed is Err ==> network_view(result) == Err::<ContainerNetwork, ErrorView>(
            network_failure(text@),
        ),
{
    match parsed {
        Ok(network) => Ok(network),
        Err(_) => Err(
            BoundaryError {
                kind: ErrorKind::ParseError,
                message: joined("parse container network ", text),
            },
        ),
    }
}

/// Reads the network of a container from `text`.
pub fn parse_network(text: &str) -> (result: Result<ContainerNetwork, BoundaryError>)
    ensures
        network_view(result) == network_result(text@),
        result matches Ok(n) ==> n.is_well_formed(),
{
    network_outcome(text, ip_network_from_str(text))
}

} // verus!
