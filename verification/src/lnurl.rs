//! What a payment service says of itself, and how an invoice is asked of it.

use vstd::prelude::*;
use vstd::string::*;
use crate::error::ZapError;
use crate::escape::{percent_encode, percent_encoded};
use crate::text::{decimal, decimal_text, option_text, result_view};

verus! {

/// How a payment service describes itself at its discovery URL.
#[derive(Clone, Debug, PartialEq, Eq)]
pub struct LnurlPayResponse {
    /// The URL from which invoices are requested.
    pub callback: String,
    /// The largest amount the service takes.
    pub max_sendable: u64,
    /// The smallest amount the service takes.
    pub min_sendable: u64,
    /// The service's own description of the payee.
    pub metadata: String,
    /// The kind of service.
    pub tag: String,
    /// Whether the service accepts zaps.
    pub allows_nostr: bool,
    /// The key with which the service signs its receipts.
    pub nostr_pubkey: Option<String>,
}

/// A [`LnurlPayResponse`] as plain text and numbers.
pub struct LnurlPayResponseView {
    pub callback: Seq<char>,
    pub max_sendable: u64,
    pub min_sendable: u64,
    pub metadata: Seq<char>,
    pub tag: Seq<char>,
    pub allows_nostr: bool,
    pub nostr_pubkey: Option<Seq<char>>,
}

impl View for LnurlPayResponse {
    type V = LnurlPayResponseView;

    open spec fn view(&self) -> LnurlPayResponseView {
        LnurlPayResponseView {
            callback: self.callback@,
            max_sendable: self.max_sendable,
            min_sendable: self.min_sendable,
            metadata: self.metadata@,
            tag: self.tag@,
            allows_nostr: self.allows_nostr,
            nostr_pubkey: option_text(self.nostr_pubkey),
        }
    }
}

/// What a payment service answers when an invoice is asked of it.
#[derive(Clone, Debug, PartialEq, Eq)]
pub struct LnurlPayCallbackResponse {
    /// The invoice: a payment request for the Lightning node, passed on unread.
    pub pr: String,
}

impl View for LnurlPayCallbackResponse {
    type V = Seq<char>;

    open spec fn view(&self) -> Seq<char> {
        self.pr@
    }
}

impl Default for LnurlPayResponse {
    fn default() -> (empty: LnurlPayResponse)
        ensures
            empty@ == (LnurlPayResponseView {
                callback: Seq::<char>::empty(),
                max_sendable: 0,
                min_sendable: 0,
                metadata: Seq::<char>::empty(),
                tag: Seq::<char>::empty(),
                allows_nostr: false,
                nostr_pubkey: None,
            }),
    {
        LnurlPayResponse {
            callback: String::new(),
            max_sendable: 0,
            min_sendable: 0,
            metadata: String::new(),
            tag: String::new(),
            allows_nostr: false,
            nostr_pubkey: None,
        }
    }
}

impl Default for LnurlPayCallbackResponse {
    fn default() -> (empty: LnurlPayCallbackResponse)
        ensures
            empty@ == Seq::<char>::empty(),
    {
        LnurlPayCallbackResponse { pr: String::new() }
    }
}

/// The key of the service's receipts, or why the service cannot be zapped: it must
/// accept zaps, and it must name the key.
pub open spec fn receipt_key_of(service: LnurlPayResponseView) -> Result<Seq<char>, ZapError> {
    if !service.allows_nostr {
        Err(ZapError::UnsupportedCapability)
    } else {
        match service.nostr_pubkey {
            Some(key) => Ok(key),
            None => Err(ZapError::MissingField),
        }
    }
}

/// The URL that asks a service for an invoice: its callback, then the amount and the
/// percent-encoded signed request as two further query parameters.
pub open spec fn invoice_url_text(callback: Seq<char>, amount: u64, request: Seq<char>) -> Seq<
    char,
> {
    callback + "&amount="@ + decimal_text(amount as nat) + "&nostr="@ + percent_encoded(request)
}

impl LnurlPayResponse {
    /// The key with which the service will sign its receipt.
    ///
    /// A service that does not accept zaps is refused whether or not it names a key;
    /// one that accepts them and names none is refused too.
    pub fn receipt_key(&self) -> (key: Result<String, ZapError>)
        ensures
            result_view(key) == receipt_key_of(self@),
    {
        if !self.allows_nostr {
            return Err(ZapError::UnsupportedCapability);
        }
        match &self.nostr_pubkey {
            Some(key) => Ok(key.clone()),
            None => Err(ZapError::MissingField),
        }
    }
}

/// The URL that asks the service behind `callback` for an invoice over `amount`,
/// with the signed zap request `request` attached.
pub fn invoice_url(callback: &str, amount: u64, request: &str) -> (url: String)
    ensures
        url@ == invoice_url_text(callback@, amount, request@),
{
    let mut url = String::from_str(callback);
    url.append("&amount=");
    url.append(decimal(amount).as_str());
    url.append("&nostr=");
    url.append(percent_encode(request).as_str());
    url
}

} // verus!
