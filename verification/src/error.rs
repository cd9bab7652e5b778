//! Why a zap stopped, or what was left unconfirmed once it was paid.

use vstd::prelude::*;
use vstd::string::*;

verus! {

/// The thing a relay query was expected to return and did not.
#[derive(Clone, Copy, Debug, PartialEq, Eq, Structural)]
pub enum Missing {
    /// The post that the zap is for.
    TargetEvent,
    /// The profile metadata of the post's author.
    Metadata,
    /// The lightning address inside that metadata.
    LightningAddress,
}

impl Missing {
    /// The words that name the missing thing.
    pub open spec fn label_text(self) -> Seq<char> {
        match self {
            Missing::TargetEvent => "target event"@,
            Missing::Metadata => "metadata"@,
            Missing::LightningAddress => "lightning address"@,
        }
    }

    /// The words that name the missing thing.
    pub fn label(&self) -> (label: &'static str)
        ensures
            label@ == self.label_text(),
    {
        match self {
            Missing::TargetEvent => "target event",
            Missing::Metadata => "metadata",
            Missing::LightningAddress => "lightning address",
        }
    }
}

/// Every way in which a zap can fall short.
///
/// All of them end the run without a payment that the node has confirmed, except
/// [`ZapError::VerificationTimeout`], which can only follow such a payment.
#[derive(Clone, Copy, Debug, PartialEq, Eq, Structural)]
pub enum ZapError {
    /// The relays did not return what was asked for.
    NotFound(Missing),
    /// An identifier or address supplied to the run has the wrong shape.
    MalformedInput,
    /// The payment service does not accept zaps.
    UnsupportedCapability,
    /// The payment service left out a field that a zap needs.
    MissingField,
    /// An answer from outside could not be read as what it should be.
    Decode,
    /// A web request did not get through.
    Network,
    /// The Lightning node's host name led to no address.
    Resolution,
    /// No session could be opened with the Lightning node.
    Connection,
    /// The Lightning node did not carry out the payment.
    Payment,
    /// The operator's key did not yield a signature.
    Signing,
    /// The invoice was paid, but no receipt showed up in time.
    VerificationTimeout,
}

impl ZapError {
    /// Whether this error ends the run without a confirmed payment.
    pub open spec fn is_fatal(self) -> bool {
        self != ZapError::VerificationTimeout
    }

    /// Whether this error ends the run without a confirmed payment.
    pub fn fatal(&self) -> (fatal: bool)
        ensures
            fatal == self.is_fatal(),
    {
        match self {
            ZapError::VerificationTimeout => false,
            _ => true,
        }
    }

    /// The diagnostic that goes with this error.
    pub open spec fn message_text(self) -> Seq<char> {
        match self {
            ZapError::NotFound(what) => "not found: "@ + what.label_text(),
            ZapError::MalformedInput => "malformed input"@,
            ZapError::UnsupportedCapability => "zaps not enabled"@,
            ZapError::MissingField => "missing field"@,
            ZapError::Decode => "undecodable response"@,
            ZapError::Network => "network failure"@,
            ZapError::Resolution => "node host did not resolve"@,
            ZapError::Connection => "node connection failed"@,
            ZapError::Payment => "payment failed"@,
            ZapError::Signing => "signing failed"@,
            ZapError::VerificationTimeout => "no receipt seen in time"@,
        }
    }

    /// The diagnostic that goes with this error.
    pub fn message(&self) -> (message: String)
        ensures
            message@ == self.message_text(),
    {
        match self {
            ZapError::NotFound(what) => {
                let mut message = String::from_str("not found: ");
                message.append(what.label());
                message
            },
            ZapError::MalformedInput => String::from_str("malformed input"),
            ZapError::UnsupportedCapability => String::from_str("zaps not enabled"),
            ZapError::MissingField => String::from_str("missing field"),
            ZapError::Decode => String::from_str("undecodable response"),
            ZapError::Network => String::from_str("network failure"),
            ZapError::Resolution => String::from_str("node host did not resolve"),
            ZapError::Connection => String::from_str("node connection failed"),
            ZapError::Payment => String::from_str("payment failed"),
            ZapError::Signing => String::from_str("signing failed"),
            ZapError::VerificationTimeout => String::from_str("no receipt seen in time"),
        }
    }
}

} // verus!
