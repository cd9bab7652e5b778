//! What the operator sets before a run.

use vstd::prelude::*;
use crate::text::texts;

verus! {

/// The operator's settings for a run.
#[derive(Clone, Debug)]
pub struct Config {
    /// The operator's signing key, in hexadecimal or as an `nsec` string.
    pub nsec: String,
    /// Host and port of the Lightning node's RPC interface.
    pub node_grpc_host: String,
    /// Where the credential that authorises calls to the node is kept.
    pub node_macaroon_path: String,
    /// Where the node's TLS certificate is kept.
    pub node_tls_path: String,
    /// The relays to ask, and to name to the payment service for its receipt.
    pub relays: Vec<String>,
    /// How much to pay.
    pub amount_sats: u64,
}

/// A [`Config`] as plain text and numbers.
pub struct ConfigView {
    pub nsec: Seq<char>,
    pub node_grpc_host: Seq<char>,
    pub node_macaroon_path: Seq<char>,
    pub node_tls_path: Seq<char>,
    pub relays: Seq<Seq<char>>,
    pub amount_sats: u64,
}

impl View for Config {
    type V = ConfigView;

    open spec fn view(&self) -> ConfigView {
        ConfigView {
            nsec: self.nsec@,
            node_grpc_host: self.node_grpc_host@,
            node_macaroon_path: self.node_macaroon_path@,
            node_tls_path: self.node_tls_path@,
            relays: texts(self.relays@),
            amount_sats: self.amount_sats,
        }
    }
}

} // verus!
