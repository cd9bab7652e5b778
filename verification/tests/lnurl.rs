use zapper::error::ZapError;
use zapper::lnurl::{invoice_url, LnurlPayCallbackResponse, LnurlPayResponse};

fn service(allows_nostr: bool, nostr_pubkey: Option<&str>) -> LnurlPayResponse {
    LnurlPayResponse {
        callback: String::from("https://example.com/pay?id=7"),
        max_sendable: 100000000,
        min_sendable: 1000,
        metadata: String::from("[]"),
        tag: String::from("payRequest"),
        allows_nostr,
        nostr_pubkey: nostr_pubkey.map(String::from),
    }
}

#[test]
fn service_with_flag_and_key_gives_its_key() {
    assert_eq!(service(true, Some("abcd")).receipt_key(), Ok(String::from("abcd")));
}

#[test]
fn service_without_flag_is_unsupported() {
    assert_eq!(service(false, Some("abcd")).receipt_key(), Err(ZapError::UnsupportedCapability));
    assert_eq!(service(false, None).receipt_key(), Err(ZapError::UnsupportedCapability));
}

#[test]
fn service_without_key_misses_a_field() {
    assert_eq!(service(true, None).receipt_key(), Err(ZapError::MissingField));
}

#[test]
fn invoice_url_appends_amount_and_request() {
    assert_eq!(
        invoice_url("https://example.com/pay?id=7", 21, "abc"),
        "https://example.com/pay?id=7&amount=21&nostr=abc"
    );
}

#[test]
fn invoice_url_escapes_the_request() {
    assert_eq!(
        invoice_url("cb", 0, "{\"a\":[1, 2]}&x=y"),
        "cb&amount=0&nostr=%7B%22a%22%3A%5B1%2C%202%5D%7D%26x%3Dy"
    );
    assert_eq!(invoice_url("cb", 1, "A-z_0.9~"), "cb&amount=1&nostr=A-z_0.9~");
    assert_eq!(invoice_url("cb", 1, "é"), "cb&amount=1&nostr=%C3%A9");
    assert_eq!(invoice_url("cb", 1, "\u{0}\u{7f}/"), "cb&amount=1&nostr=%00%7F%2F");
}

#[test]
fn invoice_url_leaves_the_callback_alone() {
    assert_eq!(
        invoice_url("http://localhost:8080/cb?a=b c", 18446744073709551615, ""),
        "http://localhost:8080/cb?a=b c&amount=18446744073709551615&nostr="
    );
}

#[test]
fn defaults_are_empty() {
    let empty = LnurlPayResponse::default();
    assert_eq!(empty.callback, "");
    assert_eq!(empty.max_sendable, 0);
    assert_eq!(empty.min_sendable, 0);
    assert_eq!(empty.metadata, "");
    assert_eq!(empty.tag, "");
    assert!(!empty.allows_nostr);
    assert_eq!(empty.nostr_pubkey, None);
    assert_eq!(empty.receipt_key(), Err(ZapError::UnsupportedCapability));
    assert_eq!(LnurlPayCallbackResponse::default().pr, "");
}
