//! Where the Lightning node is reached.

use vstd::prelude::*;
use crate::config::{Config, ConfigView};
use vstd::string::*;
use crate::error::ZapError;
use crate::text::{decimal, decimal_text, result_view};

verus! {

/// One network address that the node's host name resolved to.
#[derive(Clone, Debug, PartialEq, Eq)]
pub struct NodeAddress {
    /// The IP address, as text.
    pub ip: String,
    /// The port.
    pub port: u16,
}

/// A [`NodeAddress`] as plain text and numbers.
pub struct NodeAddressView {
    pub ip: Seq<char>,
    pub port: u16,
}

impl View for NodeAddress {
    type V = NodeAddressView;

    open spec fn view(&self) -> NodeAddressView {
        NodeAddressView { ip: self.ip@, port: self.port }
    }
}

/// The addresses of a list, each as plain text and numbers.
pub open spec fn address_views(addresses: Seq<NodeAddress>) -> Seq<NodeAddressView> {
    addresses.map_values(|address: NodeAddress| address@)
}

/// All that it takes to open a session with the node.
#[derive(Clone, Debug, PartialEq, Eq)]
pub struct NodeEndpoint {
    /// The IP address of the node, as text.
    pub host: String,
    /// The port of the node's RPC interface.
    pub port: u32,
    /// Where the node's TLS certificate is kept.
    pub tls_path: String,
    /// Where the credential that authorises the calls is kept.
    pub macaroon_path: String,
}

/// A [`NodeEndpoint`] as plain text and numbers.
pub struct NodeEndpointView {
    pub host: Seq<char>,
    pub port: u32,
    pub tls_path: Seq<char>,
    pub macaroon_path: Seq<char>,
}

impl View for NodeEndpoint {
    type V = NodeEndpointView;

    open spec fn view(&self) -> NodeEndpointView {
        NodeEndpointView {
            host: self.host@,
            port: self.port,
            tls_path: self.tls_path@,
            macaroon_path: self.macaroon_path@,
        }
    }
}

/// The URL of the node's RPC interface at `host` and `port`.
pub open spec fn rpc_url_text(host: Seq<char>, port: u32) -> Seq<char> {
    "https://"@ + host + ":"@ + decimal_text(port as nat)
}

impl NodeEndpoint {
    /// The URL of the node's RPC interface.
    pub fn rpc_url(&self) -> (url: String)
        ensures
            url@ == rpc_url_text(self.host@, self.port),
    {
        let mut url = String::from_str("https://");
        url.append(self.host.as_str());
        url.append(":");
        url.append(decimal(self.port as u64).as_str());
        url
    }
}

/// The endpoint at which the node is reached: the first of the addresses that its
/// host name resolved to, with the certificate and the credential that the
/// settings name. A host name that resolved to nothing is a resolution failure.
pub open spec fn endpoint_of(addresses: Seq<NodeAddressView>, config: ConfigView) -> Result<
    NodeEndpointView,
    ZapError,
> {
    if addresses.len() > 0 {
        Ok(
            NodeEndpointView {
                host: addresses[0].ip,
                port: addresses[0].port as u32,
                tls_path: config.node_tls_path,
                macaroon_path: config.node_macaroon_path,
            },
        )
    } else {
        Err(ZapError::Resolution)
    }
}

/// The endpoint at which the node is reached, from the addresses that its host name
/// resolved to.
pub fn endpoint(addresses: Vec<NodeAddress>, config: &Config) -> (found: Result<
    NodeEndpoint,
    ZapError,
>)
    ensures
        result_view(found) == endpoint_of(address_views(addresses@), config@),
{
    let mut addresses = addresses;
    if addresses.len() == 0 {
        return Err(ZapError::Resolution);
    }
    let first = addresses.remove(0);
    Ok(
        NodeEndpoint {
            host: first.ip,
            port: first.port as u32,
            tls_path: config.node_tls_path.clone(),
            macaroon_path: config.node_macaroon_path.clone(),
        },
    )
}

/// Whether the node's answer to a payment means that the invoice is paid: the call
/// came back, and the answer reports no payment error.
pub fn payment_settled(returned: bool, payment_error: &str) -> (settled: bool)
    ensures
        settled == (returned && payment_error@.len() == 0),
{
    returned && payment_error.is_empty()
}

} // verus!
