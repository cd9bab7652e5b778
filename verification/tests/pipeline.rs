use std::str::FromStr;

use nostr_sdk::prelude::FromSkStr;
use zapper::config::Config;
use zapper::error::{Missing, ZapError};
use zapper::intent::Refusal;
use zapper::lnurl::{LnurlPayCallbackResponse, LnurlPayResponse};
use zapper::node::{NodeAddress, NodeEndpoint};
use zapper::pipeline::{
    after_address, after_addresses, after_invoice, after_metadata, after_payment, after_receipt,
    after_session, after_signing, after_target, ask, halt, Action, Outcome, Pipeline, Reply, Stage,
};
use zapper::relay::{RelayEvent, RelayFilter};
use zapper::run::replay;

const NOTE: &str = "note190sh4gcrr0wtqphsln5qc9rda2wpcqngkzhj8x9mvuekt3jyf4zsqkzrt3";
const NOTE_HEX: &str = "2be17aa3031bdcb006f0fce80c146dea9c1c0268b0af2398bb673365c6444d45";
const SECRET: &str = "0000000000000000000000000000000000000000000000000000000000000001";
const AUTHOR: &str = "f86c44a2de95d9149b51c6a29afeabba264c18e2fa7c49de93424a0c56947785";
const SERVICE_KEY: &str = "79be667ef9dcbbac55a06295ce870b07029bfcdb2dce28d959f2815b16f81798";
const INVOICE: &str = "lnbc210n1pexample";

fn config() -> Config {
    Config {
        nsec: String::from(SECRET),
        node_grpc_host: String::from("node.example:10009"),
        node_macaroon_path: String::from("/etc/lnd/admin.macaroon"),
        node_tls_path: String::from("/etc/lnd/tls.cert"),
        relays: vec![String::from("wss://relay.one.example"), String::from("wss://relay.two.example")],
        amount_sats: 21,
    }
}

fn event(id: &str, content: &str) -> RelayEvent {
    RelayEvent {
        id: String::from(id),
        author: String::from(AUTHOR),
        content: String::from(content),
        signature: String::from("00"),
    }
}

fn profile(address: &str) -> Reply {
    let content = format!("{{\"name\":\"alice\",\"lud16\":\"{}\"}}", address);
    Reply::Events(vec![event("11", &content)])
}

fn service(allows_nostr: bool, nostr_pubkey: Option<&str>) -> LnurlPayResponse {
    LnurlPayResponse {
        callback: String::from("http://localhost:8080/lnurlp/alice/callback?k=v"),
        max_sendable: 100000000,
        min_sendable: 1000,
        metadata: String::from("[[\"text/plain\",\"alice\"]]"),
        tag: String::from("payRequest"),
        allows_nostr,
        nostr_pubkey: nostr_pubkey.map(String::from),
    }
}

fn failed(error: ZapError) -> Action {
    Action::Finish(Outcome::Failed(error))
}

/// A run that has taken in the replies up to and without the descriptor.
fn run_to_descriptor() -> Pipeline {
    let (mut run, _) = Pipeline::start(config(), NOTE).unwrap();
    run.step(Reply::Events(vec![event(NOTE_HEX, "hello")]));
    run.step(profile("alice@localhost:8080"));
    assert_eq!(run.stage(), &Stage::AwaitingDescriptor);
    run
}

/// A run that has asked for the payment and waits for the node's answer.
fn run_to_payment() -> Pipeline {
    let mut run = run_to_descriptor();
    run.step(Reply::Descriptor(service(true, Some(SERVICE_KEY))));
    run.step(Reply::Invoice(LnurlPayCallbackResponse { pr: String::from(INVOICE) }));
    run.step(Reply::Addresses(vec![NodeAddress { ip: String::from("10.0.0.7"), port: 10009 }]));
    let action = run.step(Reply::Connected);
    assert_eq!(action, Action::Pay(String::from(INVOICE)));
    run
}

#[test]
fn questions_wait_ten_seconds() {
    assert_eq!(
        ask(RelayFilter::by_id("abc")),
        Action::Query { filter: RelayFilter::by_id("abc"), timeout_secs: 10 }
    );
}

#[test]
fn start_asks_for_the_target_event() {
    let (run, action) = Pipeline::start(config(), NOTE).unwrap();
    assert_eq!(action, ask(RelayFilter::by_id(NOTE_HEX)));
    assert_eq!(run.stage(), &Stage::AwaitingTarget);
    assert_eq!(run.target(), NOTE_HEX);
    assert_eq!(run.config().amount_sats, 21);
    assert!(!run.finished());
}

#[test]
fn start_refuses_a_malformed_note() {
    assert_eq!(Pipeline::start(config(), "note1xyz").err(), Some(ZapError::MalformedInput));
    assert_eq!(Pipeline::start(config(), NOTE_HEX).err(), Some(ZapError::MalformedInput));
}

#[test]
fn start_refuses_a_malformed_key() {
    let mut bad = config();
    bad.nsec = String::from("nsec1notakey");
    assert_eq!(Pipeline::start(bad, NOTE).err(), Some(ZapError::MalformedInput));
    let mut zero = config();
    zero.nsec = String::from("0000000000000000000000000000000000000000000000000000000000000000");
    assert_eq!(Pipeline::start(zero, NOTE).err(), Some(ZapError::MalformedInput));
}

#[test]
fn start_accepts_a_key_in_either_form() {
    let mut bech = config();
    bech.nsec = String::from("nsec1qqqqqqqqqqqqqqqqqqqqqqqqqqqqqqqqqqqqqqqqqqqqqqqqqqqsmhltgl");
    assert!(Pipeline::start(bech, NOTE).is_ok());
    assert!(Pipeline::start(config(), NOTE).is_ok());
}

#[test]
fn whole_run_names_each_action_in_turn() {
    let (mut run, first) = Pipeline::start(config(), NOTE).unwrap();
    assert_eq!(first, ask(RelayFilter::by_id(NOTE_HEX)));

    let action = run.step(Reply::Events(vec![event(NOTE_HEX, "hello"), event("22", "other")]));
    assert_eq!(action, ask(RelayFilter::metadata_of(AUTHOR)));
    assert_eq!(run.stage(), &Stage::AwaitingMetadata);

    let action = run.step(profile("alice@localhost:8080"));
    assert_eq!(
        action,
        Action::FetchDescriptor(String::from("http://localhost:8080/.well-known/lnurlp/alice"))
    );
    assert_eq!(run.stage(), &Stage::AwaitingDescriptor);

    let action = run.step(Reply::Descriptor(service(true, Some(SERVICE_KEY))));
    match &action {
        Action::FetchInvoice(url) => {
            assert!(url.starts_with("http://localhost:8080/lnurlp/alice/callback?k=v&amount=21&nostr=%7B"))
        }
        other => panic!("unexpected action: {:?}", other),
    }
    assert_eq!(run.stage(), &Stage::AwaitingInvoice { receipt_key: String::from(SERVICE_KEY) });

    let action = run.step(Reply::Invoice(LnurlPayCallbackResponse { pr: String::from(INVOICE) }));
    assert_eq!(action, Action::Resolve(String::from("node.example:10009")));

    let action = run.step(Reply::Addresses(vec![
        NodeAddress { ip: String::from("10.0.0.7"), port: 10009 },
        NodeAddress { ip: String::from("10.0.0.8"), port: 10010 },
    ]));
    assert_eq!(
        action,
        Action::Connect(NodeEndpoint {
            host: String::from("10.0.0.7"),
            port: 10009,
            tls_path: String::from("/etc/lnd/tls.cert"),
            macaroon_path: String::from("/etc/lnd/admin.macaroon"),
        })
    );

    let action = run.step(Reply::Connected);
    assert_eq!(action, Action::Pay(String::from(INVOICE)));
    assert_eq!(run.stage(), &Stage::AwaitingPayment { receipt_key: String::from(SERVICE_KEY) });

    let action = run.step(Reply::Paid);
    assert_eq!(action, ask(RelayFilter::receipts_for(NOTE_HEX, SERVICE_KEY)));
    assert_eq!(run.stage(), &Stage::AwaitingReceipt);

    let action = run.step(Reply::Events(vec![event("33", "receipt")]));
    assert_eq!(action, Action::Finish(Outcome::Confirmed));
    assert!(run.finished());
    assert_eq!(run.stage(), &Stage::Done(Outcome::Confirmed));
}

#[test]
fn signed_request_refers_to_event_key_and_relays() {
    let mut run = run_to_descriptor();
    let action = run.step(Reply::Descriptor(service(true, Some(SERVICE_KEY))));
    let url = match action {
        Action::FetchInvoice(url) => url,
        other => panic!("unexpected action: {:?}", other),
    };
    let encoded = url
        .strip_prefix("http://localhost:8080/lnurlp/alice/callback?k=v&amount=21&nostr=")
        .unwrap();
    assert!(encoded.chars().all(|c| c.is_ascii_alphanumeric() || "-._~%".contains(c)));
    let json = urlencoding::decode(encoded).unwrap().into_owned();
    let signed = nostr_sdk::Event::from_json(json).unwrap();

    let keys = nostr_sdk::Keys::from_sk_str(SECRET).unwrap();
    assert_eq!(signed.pubkey, keys.public_key());
    assert_eq!(signed.kind, nostr_sdk::Kind::ZapRequest);
    assert_eq!(signed.content, "");
    assert_eq!(signed.tags.len(), 3);
    let event = nostr_sdk::Tag::Event(nostr_sdk::EventId::from_hex(NOTE_HEX).unwrap(), None, None);
    let key = nostr_sdk::Tag::PubKey(
        nostr_sdk::secp256k1::XOnlyPublicKey::from_str(SERVICE_KEY).unwrap(),
        None,
    );
    let relays = nostr_sdk::Tag::Relays(vec![
        nostr_sdk::Url::from_str("wss://relay.one.example").unwrap(),
        nostr_sdk::Url::from_str("wss://relay.two.example").unwrap(),
    ]);
    assert!(signed.tags.contains(&event));
    assert!(signed.tags.contains(&key));
    assert!(signed.tags.contains(&relays));
}

#[test]
fn zap_request_of_a_run_has_three_references() {
    let run = run_to_descriptor();
    let intent = run.zap_request(SERVICE_KEY);
    assert_eq!(intent, zapper::intent::ZapIntent::new(NOTE_HEX, SERVICE_KEY, &config().relays));
    assert_eq!(intent.tags.len(), 3);
}

#[test]
fn missing_target_event_ends_the_run() {
    let (mut run, _) = Pipeline::start(config(), NOTE).unwrap();
    let action = run.step(Reply::Events(Vec::new()));
    assert_eq!(action, failed(ZapError::NotFound(Missing::TargetEvent)));
    assert!(run.finished());
    let again = run.step(Reply::Events(vec![event(NOTE_HEX, "late")]));
    assert_eq!(again, failed(ZapError::NotFound(Missing::TargetEvent)));
    let still = run.step(Reply::Paid);
    assert_eq!(still, failed(ZapError::NotFound(Missing::TargetEvent)));
}

#[test]
fn missing_metadata_ends_the_run() {
    let (mut run, _) = Pipeline::start(config(), NOTE).unwrap();
    run.step(Reply::Events(vec![event(NOTE_HEX, "hello")]));
    let action = run.step(Reply::Events(Vec::new()));
    assert_eq!(action, failed(ZapError::NotFound(Missing::Metadata)));
}

#[test]
fn metadata_without_lightning_address_ends_the_run() {
    let (mut run, _) = Pipeline::start(config(), NOTE).unwrap();
    run.step(Reply::Events(vec![event(NOTE_HEX, "hello")]));
    let action = run.step(Reply::Events(vec![event("11", "{\"name\":\"alice\"}")]));
    assert_eq!(action, failed(ZapError::NotFound(Missing::LightningAddress)));
    assert_eq!(run.stage(), &Stage::Done(Outcome::Failed(ZapError::NotFound(Missing::LightningAddress))));
    let again = run.step(Reply::Descriptor(service(true, Some(SERVICE_KEY))));
    assert_eq!(again, failed(ZapError::NotFound(Missing::LightningAddress)));
}

#[test]
fn metadata_with_empty_lightning_address_ends_the_run() {
    let (mut run, _) = Pipeline::start(config(), NOTE).unwrap();
    run.step(Reply::Events(vec![event(NOTE_HEX, "hello")]));
    let action = run.step(profile(""));
    assert_eq!(action, failed(ZapError::NotFound(Missing::LightningAddress)));
}

#[test]
fn unreadable_metadata_ends_the_run() {
    let (mut run, _) = Pipeline::start(config(), NOTE).unwrap();
    run.step(Reply::Events(vec![event(NOTE_HEX, "hello")]));
    let action = run.step(Reply::Events(vec![event("11", "<html>")]));
    assert_eq!(action, failed(ZapError::Decode));
}

#[test]
fn address_without_separator_ends_the_run_before_any_request() {
    let (mut run, _) = Pipeline::start(config(), NOTE).unwrap();
    run.step(Reply::Events(vec![event(NOTE_HEX, "hello")]));
    let action = run.step(profile("alice.example.com"));
    assert_eq!(action, failed(ZapError::MalformedInput));
    assert!(run.finished());
}

#[test]
fn remote_address_is_fetched_over_https() {
    let (mut run, _) = Pipeline::start(config(), NOTE).unwrap();
    run.step(Reply::Events(vec![event(NOTE_HEX, "hello")]));
    let action = run.step(profile("alice@example.com"));
    assert_eq!(
        action,
        Action::FetchDescriptor(String::from("https://example.com/.well-known/lnurlp/alice"))
    );
}

#[test]
fn service_without_zaps_ends_the_run_without_a_callback() {
    let mut run = run_to_descriptor();
    let action = run.step(Reply::Descriptor(service(false, Some(SERVICE_KEY))));
    assert_eq!(action, failed(ZapError::UnsupportedCapability));
    assert!(run.finished());
    let again = run.step(Reply::Invoice(LnurlPayCallbackResponse { pr: String::from(INVOICE) }));
    assert_eq!(again, failed(ZapError::UnsupportedCapability));
}

#[test]
fn service_without_key_ends_the_run() {
    let mut run = run_to_descriptor();
    let action = run.step(Reply::Descriptor(service(true, None)));
    assert_eq!(action, failed(ZapError::MissingField));
}

#[test]
fn service_with_a_bad_key_ends_the_run() {
    let mut run = run_to_descriptor();
    let action = run.step(Reply::Descriptor(service(true, Some("not a key"))));
    assert_eq!(action, failed(ZapError::Decode));
}

#[test]
fn bad_relay_ends_the_run_before_the_callback() {
    let mut settings = config();
    settings.relays.push(String::from("not a url"));
    let (mut run, _) = Pipeline::start(settings, NOTE).unwrap();
    run.step(Reply::Events(vec![event(NOTE_HEX, "hello")]));
    run.step(profile("alice@localhost:8080"));
    let action = run.step(Reply::Descriptor(service(true, Some(SERVICE_KEY))));
    assert_eq!(action, failed(ZapError::MalformedInput));
}

#[test]
fn unreachable_service_is_a_network_failure() {
    let mut run = run_to_descriptor();
    assert_eq!(run.step(Reply::Unreachable), failed(ZapError::Network));
    let mut other = run_to_descriptor();
    assert_eq!(other.step(Reply::Failed), failed(ZapError::Network));
}

#[test]
fn undecodable_description_is_a_decoding_failure() {
    let mut run = run_to_descriptor();
    assert_eq!(run.step(Reply::Undecodable), failed(ZapError::Decode));
}

#[test]
fn undecodable_invoice_is_a_decoding_failure() {
    let mut run = run_to_descriptor();
    run.step(Reply::Descriptor(service(true, Some(SERVICE_KEY))));
    assert_eq!(run.step(Reply::Undecodable), failed(ZapError::Decode));
    let mut other = run_to_descriptor();
    other.step(Reply::Descriptor(service(true, Some(SERVICE_KEY))));
    assert_eq!(other.step(Reply::Unreachable), failed(ZapError::Network));
}

#[test]
fn host_that_resolves_to_nothing_is_a_resolution_failure() {
    let mut run = run_to_descriptor();
    run.step(Reply::Descriptor(service(true, Some(SERVICE_KEY))));
    run.step(Reply::Invoice(LnurlPayCallbackResponse { pr: String::from(INVOICE) }));
    assert_eq!(run.step(Reply::Addresses(Vec::new())), failed(ZapError::Resolution));
}

#[test]
fn refused_session_is_a_connection_failure() {
    let mut run = run_to_descriptor();
    run.step(Reply::Descriptor(service(true, Some(SERVICE_KEY))));
    run.step(Reply::Invoice(LnurlPayCallbackResponse { pr: String::from(INVOICE) }));
    run.step(Reply::Addresses(vec![NodeAddress { ip: String::from("10.0.0.7"), port: 10009 }]));
    assert_eq!(run.step(Reply::Failed), failed(ZapError::Connection));
    assert_eq!(run.step(Reply::Connected), failed(ZapError::Connection));
}

#[test]
fn failed_payment_ends_the_run_and_is_not_repeated() {
    let mut run = run_to_payment();
    assert_eq!(run.step(Reply::Failed), failed(ZapError::Payment));
    assert_eq!(run.step(Reply::Connected), failed(ZapError::Payment));
    assert_eq!(run.step(Reply::Paid), failed(ZapError::Payment));
}

#[test]
fn missing_receipt_leaves_the_payment_standing() {
    let mut run = run_to_payment();
    run.step(Reply::Paid);
    let action = run.step(Reply::Events(Vec::new()));
    assert_eq!(action, Action::Finish(Outcome::Unconfirmed));
    assert_eq!(run.stage(), &Stage::Done(Outcome::Unconfirmed));
    assert!(Outcome::Unconfirmed.paid());
    assert_eq!(Outcome::Unconfirmed.notice(), Some(ZapError::VerificationTimeout));
    assert_ne!(Outcome::Unconfirmed, Outcome::Confirmed);
    let again = run.step(Reply::Connected);
    assert_eq!(again, Action::Finish(Outcome::Unconfirmed));
}

#[test]
fn payment_is_asked_for_once_whatever_follows() {
    let replies = vec![
        Reply::Paid,
        Reply::Events(Vec::new()),
        Reply::Connected,
        Reply::Paid,
        Reply::Failed,
        Reply::Connected,
        Reply::Invoice(LnurlPayCallbackResponse { pr: String::from(INVOICE) }),
        Reply::Addresses(vec![NodeAddress { ip: String::from("10.0.0.7"), port: 10009 }]),
        Reply::Connected,
    ];
    let mut run = run_to_payment();
    let mut payments = 1;
    for reply in replies {
        if let Action::Pay(_) = run.step(reply) {
            payments += 1;
        }
    }
    assert_eq!(payments, 1);
}

#[test]
fn replayed_run_pays_once_and_ends_once() {
    let (mut run, _) = Pipeline::start(config(), NOTE).unwrap();
    let actions = replay(
        &mut run,
        vec![
            Reply::Events(vec![event(NOTE_HEX, "hello")]),
            profile("alice@example.com"),
            Reply::Descriptor(service(true, Some(SERVICE_KEY))),
            Reply::Invoice(LnurlPayCallbackResponse { pr: String::from(INVOICE) }),
            Reply::Addresses(vec![NodeAddress { ip: String::from("10.0.0.7"), port: 10009 }]),
            Reply::Connected,
            Reply::Paid,
            Reply::Events(Vec::new()),
            Reply::Connected,
            Reply::Paid,
        ],
    );
    assert_eq!(actions.len(), 10);
    assert_eq!(actions.iter().filter(|action| matches!(action, Action::Pay(_))).count(), 1);
    assert_eq!(actions[5], Action::Pay(String::from(INVOICE)));
    assert_eq!(actions[7], Action::Finish(Outcome::Unconfirmed));
    assert_eq!(actions[8], Action::Finish(Outcome::Unconfirmed));
    assert_eq!(actions[9], Action::Finish(Outcome::Unconfirmed));
    assert!(run.finished());
}

#[test]
fn replayed_run_without_target_asks_nothing_more() {
    let (mut run, _) = Pipeline::start(config(), NOTE).unwrap();
    let actions = replay(
        &mut run,
        vec![
            Reply::Events(Vec::new()),
            profile("alice@example.com"),
            Reply::Descriptor(service(true, Some(SERVICE_KEY))),
            Reply::Paid,
        ],
    );
    assert_eq!(actions, vec![failed(ZapError::NotFound(Missing::TargetEvent)); 4]);
}

#[test]
fn replay_of_nothing_changes_nothing() {
    let (mut run, _) = Pipeline::start(config(), NOTE).unwrap();
    assert_eq!(replay(&mut run, Vec::new()), Vec::new());
    assert_eq!(run.stage(), &Stage::AwaitingTarget);
}

#[test]
fn outcomes_tell_the_process_how_to_end() {
    assert_eq!(Outcome::Confirmed.exit_code(), 0);
    assert_eq!(Outcome::Unconfirmed.exit_code(), 0);
    assert_eq!(Outcome::Failed(ZapError::Payment).exit_code(), 1);
    assert_eq!(Outcome::Confirmed.notice(), None);
    assert_eq!(Outcome::Failed(ZapError::Network).notice(), Some(ZapError::Network));
    assert!(Outcome::Confirmed.paid());
    assert!(!Outcome::Failed(ZapError::Payment).paid());
}

#[test]
fn steps_can_be_taken_one_by_one() {
    assert_eq!(halt(ZapError::Signing), (Stage::Done(Outcome::Failed(ZapError::Signing)), failed(ZapError::Signing)));
    assert_eq!(
        after_target(Reply::Connected),
        (Stage::Done(Outcome::Failed(ZapError::NotFound(Missing::TargetEvent))), failed(ZapError::NotFound(Missing::TargetEvent)))
    );
    assert_eq!(
        after_metadata(Reply::Paid).1,
        failed(ZapError::NotFound(Missing::Metadata))
    );
    assert_eq!(after_address(Err(ZapError::Decode)).1, failed(ZapError::Decode));
    assert_eq!(
        after_address(Ok(String::from("a@b"))),
        (Stage::AwaitingDescriptor, Action::FetchDescriptor(String::from("https://b/.well-known/lnurlp/a")))
    );
    assert_eq!(
        after_signing(String::from("key"), "cb", 5, Ok(String::from("{}"))),
        (
            Stage::AwaitingInvoice { receipt_key: String::from("key") },
            Action::FetchInvoice(String::from("cb&amount=5&nostr=%7B%7D"))
        )
    );
    assert_eq!(
        after_signing(String::from("key"), "cb", 5, Err(Refusal::Signature)).1,
        failed(ZapError::Signing)
    );
    assert_eq!(
        after_signing(String::from("key"), "cb", 5, Err(Refusal::EventId)).1,
        failed(ZapError::MalformedInput)
    );
    assert_eq!(
        after_invoice(String::from("key"), &config(), Reply::Paid).1,
        failed(ZapError::Network)
    );
    assert_eq!(
        after_addresses(String::from("key"), String::from(INVOICE), &config(), Reply::Paid).1,
        failed(ZapError::Resolution)
    );
    assert_eq!(
        after_session(String::from("key"), String::from(INVOICE), Reply::Paid).1,
        failed(ZapError::Connection)
    );
    assert_eq!(
        after_payment(String::from("key"), NOTE_HEX, Reply::Connected).1,
        failed(ZapError::Payment)
    );
    assert_eq!(after_receipt(Reply::Failed).1, Action::Finish(Outcome::Unconfirmed));
    assert_eq!(
        after_receipt(Reply::Events(vec![event("33", "receipt")])),
        (Stage::Done(Outcome::Confirmed), Action::Finish(Outcome::Confirmed))
    );
}
