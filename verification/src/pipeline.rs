//! The run itself: what is asked of the outside world, in which order, and what
//! each answer leads to.
//!
//! A [`Pipeline`] never does outside work. It names one [`Action`] at a time; its
//! caller carries the action out and hands back a [`Reply`], on which the pipeline
//! names the next action. The last action of a run is [`Action::Finish`].

use vstd::prelude::*;
use crate::address::{discovery_url, discovery_url_of};
use crate::config::{Config, ConfigView};
use crate::error::{Missing, ZapError};
use crate::intent::{
    is_secret_key,
    parse_keys,
    sign_intent,
    zap_intent_view,
    Refusal,
    ZapIntent,
};
use crate::lnurl::{
    invoice_url,
    invoice_url_text,
    receipt_key_of,
    LnurlPayCallbackResponse,
    LnurlPayResponse,
    LnurlPayResponseView,
};
use crate::node::{
    address_views,
    endpoint,
    endpoint_of,
    NodeAddress,
    NodeAddressView,
    NodeEndpoint,
    NodeEndpointView,
};
use crate::relay::{
    address_of_field,
    by_id_view,
    event_views,
    first_event,
    lightning_address,
    metadata_lud16,
    metadata_of_view,
    receipts_for_view,
    target_id,
    target_id_of,
    RelayEvent,
    RelayEventView,
    RelayFilter,
    RelayFilterView,
    RELAY_TIMEOUT_SECS,
};
use crate::text::result_view;

verus! {

/// How a run ended.
#[derive(Clone, Copy, Debug, PartialEq, Eq, Structural)]
pub enum Outcome {
    /// The invoice was paid and a receipt was seen on the relays.
    Confirmed,
    /// The invoice was paid, but no receipt was seen in time. The payment stands.
    Unconfirmed,
    /// The run stopped on an error, and the node has confirmed no payment.
    Failed(ZapError),
}

impl Outcome {
    /// Whether the node has paid the invoice.
    pub open spec fn is_paid(self) -> bool {
        !(self is Failed)
    }

    /// Whether the node has paid the invoice.
    pub fn paid(&self) -> (paid: bool)
        ensures
            paid == self.is_paid(),
    {
        match self {
            Outcome::Failed(_) => false,
            _ => true,
        }
    }

    /// The status with which the process ends: zero if the invoice was paid, one
    /// if the run failed.
    pub open spec fn exit_status(self) -> u8 {
        if self.is_paid() {
            0
        } else {
            1
        }
    }

    /// The status with which the process ends.
    pub fn exit_code(&self) -> (code: u8)
        ensures
            code == self.exit_status(),
    {
        if self.paid() {
            0
        } else {
            1
        }
    }

    /// What the operator is to be told of: the error of a failed run, the missing
    /// receipt of an unconfirmed one, nothing after a confirmed one.
    pub open spec fn notice_of(self) -> Option<ZapError> {
        match self {
            Outcome::Confirmed => None,
            Outcome::Unconfirmed => Some(ZapError::VerificationTimeout),
            Outcome::Failed(error) => Some(error),
        }
    }

    /// What the operator is to be told of.
    pub fn notice(&self) -> (notice: Option<ZapError>)
        ensures
            notice == self.notice_of(),
    {
        match self {
            Outcome::Confirmed => None,
            Outcome::Unconfirmed => Some(ZapError::VerificationTimeout),
            Outcome::Failed(error) => Some(*error),
        }
    }
}

/// What the outside world answered to the last action.
#[derive(Clone, Debug, PartialEq, Eq)]
pub enum Reply {
    /// The events that the relays handed out before the wait ran out.
    Events(Vec<RelayEvent>),
    /// The payment service's description of itself.
    Descriptor(LnurlPayResponse),
    /// The payment service's answer to the request for an invoice.
    Invoice(LnurlPayCallbackResponse),
    /// A web request did not get through.
    Unreachable,
    /// A web request was answered with something else than what was asked for.
    Undecodable,
    /// The addresses that the node's host name resolved to.
    Addresses(Vec<NodeAddress>),
    /// A session with the node is open.
    Connected,
    /// The node paid the invoice.
    Paid,
    /// The action could not be carried out.
    Failed,
}

/// A [`Reply`] as plain text and numbers.
pub enum ReplyView {
    Events(Seq<RelayEventView>),
    Descriptor(LnurlPayResponseView),
    Invoice(Seq<char>),
    Unreachable,
    Undecodable,
    Addresses(Seq<NodeAddressView>),
    Connected,
    Paid,
    Failed,
}

impl View for Reply {
    type V = ReplyView;

    open spec fn view(&self) -> ReplyView {
        match self {
            Reply::Events(events) => ReplyView::Events(event_views(events@)),
            Reply::Descriptor(service) => ReplyView::Descriptor(service@),
            Reply::Invoice(answer) => ReplyView::Invoice(answer@),
            Reply::Unreachable => ReplyView::Unreachable,
            Reply::Undecodable => ReplyView::Undecodable,
            Reply::Addresses(addresses) => ReplyView::Addresses(address_views(addresses@)),
            Reply::Connected => ReplyView::Connected,
            Reply::Paid => ReplyView::Paid,
            Reply::Failed => ReplyView::Failed,
        }
    }
}

/// What the caller is to do next.
#[derive(Clone, Debug, PartialEq, Eq)]
pub enum Action {
    /// Put the question to the relays and wait no longer than so many seconds for
    /// events.
    Query { filter: RelayFilter, timeout_secs: u64 },
    /// Fetch the payment service's description of itself from this URL.
    FetchDescriptor(String),
    /// Fetch an invoice from this URL.
    FetchInvoice(String),
    /// Resolve this host name of the Lightning node.
    Resolve(String),
    /// Open a session with the Lightning node.
    Connect(NodeEndpoint),
    /// Have the Lightning node pay this invoice. The money is gone once it has.
    Pay(String),
    /// Stop: the run has ended.
    Finish(Outcome),
}

/// An [`Action`] as plain text and numbers.
pub enum ActionView {
    Query { filter: RelayFilterView, timeout_secs: u64 },
    FetchDescriptor(Seq<char>),
    FetchInvoice(Seq<char>),
    Resolve(Seq<char>),
    Connect(NodeEndpointView),
    Pay(Seq<char>),
    Finish(Outcome),
}

impl View for Action {
    type V = ActionView;

    open spec fn view(&self) -> ActionView {
        match self {
            Action::Query { filter, timeout_secs } => ActionView::Query {
                filter: filter@,
                timeout_secs: *timeout_secs,
            },
            Action::FetchDescriptor(url) => ActionView::FetchDescriptor(url@),
            Action::FetchInvoice(url) => ActionView::FetchInvoice(url@),
            Action::Resolve(host) => ActionView::Resolve(host@),
            Action::Connect(endpoint) => ActionView::Connect(endpoint@),
            Action::Pay(invoice) => ActionView::Pay(invoice@),
            Action::Finish(outcome) => ActionView::Finish(*outcome),
        }
    }
}

/// How far a run has come: the answer that it is waiting for, with what has to be
/// kept for later.
#[derive(Clone, Debug, PartialEq, Eq)]
pub enum Stage {
    /// Waiting for the event that is to be zapped.
    AwaitingTarget,
    /// Waiting for the profile metadata of the event's author.
    AwaitingMetadata,
    /// Waiting for the payment service's description of itself.
    AwaitingDescriptor,
    /// Waiting for the invoice.
    AwaitingInvoice { receipt_key: String },
    /// Waiting for the addresses of the Lightning node.
    AwaitingAddresses { receipt_key: String, invoice: String },
    /// Waiting for the session with the Lightning node.
    AwaitingSession { receipt_key: String, invoice: String },
    /// Waiting for the Lightning node to pay.
    AwaitingPayment { receipt_key: String },
    /// Waiting for the receipt.
    AwaitingReceipt,
    /// The run has ended.
    Done(Outcome),
}

/// A [`Stage`] as plain text.
pub enum StageView {
    AwaitingTarget,
    AwaitingMetadata,
    AwaitingDescriptor,
    AwaitingInvoice { receipt_key: Seq<char> },
    AwaitingAddresses { receipt_key: Seq<char>, invoice: Seq<char> },
    AwaitingSession { receipt_key: Seq<char>, invoice: Seq<char> },
    AwaitingPayment { receipt_key: Seq<char> },
    AwaitingReceipt,
    Done(Outcome),
}

impl View for Stage {
    type V = StageView;

    open spec fn view(&self) -> StageView {
        match self {
            Stage::AwaitingTarget => StageView::AwaitingTarget,
            Stage::AwaitingMetadata => StageView::AwaitingMetadata,
            Stage::AwaitingDescriptor => StageView::AwaitingDescriptor,
            Stage::AwaitingInvoice { receipt_key } => StageView::AwaitingInvoice {
                receipt_key: receipt_key@,
            },
            Stage::AwaitingAddresses { receipt_key, invoice } => StageView::AwaitingAddresses {
                receipt_key: receipt_key@,
                invoice: invoice@,
            },
            Stage::AwaitingSession { receipt_key, invoice } => StageView::AwaitingSession {
                receipt_key: receipt_key@,
                invoice: invoice@,
            },
            Stage::AwaitingPayment { receipt_key } => StageView::AwaitingPayment {
                receipt_key: receipt_key@,
            },
            Stage::AwaitingReceipt => StageView::AwaitingReceipt,
            Stage::Done(outcome) => StageView::Done(*outcome),
        }
    }
}

/// The action that puts `filter` to the relays, with the wait that every question
/// to the relays is given.
pub open spec fn ask_view(filter: RelayFilterView) -> ActionView {
    ActionView::Query { filter, timeout_secs: RELAY_TIMEOUT_SECS }
}

/// The end of a run on `error`: nothing more is asked of the outside world.
pub open spec fn stop(error: ZapError) -> (StageView, ActionView) {
    (StageView::Done(Outcome::Failed(error)), ActionView::Finish(Outcome::Failed(error)))
}

/// What follows the answer to the question for the event that is to be zapped: the
/// question for the metadata of the author of the first event handed out.
pub open spec fn after_target_view(reply: ReplyView) -> (StageView, ActionView) {
    match reply {
        ReplyView::Events(events) if events.len() > 0 => (
            StageView::AwaitingMetadata,
            ask_view(metadata_of_view(events[0].author)),
        ),
        _ => stop(ZapError::NotFound(Missing::TargetEvent)),
    }
}

/// What follows a lightning address, or the failure to find one: the request for
/// the description of the payment service behind the address.
pub open spec fn after_address_view(address: Result<Seq<char>, ZapError>) -> (
    StageView,
    ActionView,
) {
    match address {
        Err(error) => stop(error),
        Ok(text) => match discovery_url_of(text) {
            None => stop(ZapError::MalformedInput),
            Some(url) => (StageView::AwaitingDescriptor, ActionView::FetchDescriptor(url)),
        },
    }
}

/// What follows the answer to the question for the author's metadata: the lightning
/// address is read out of the first event handed out.
pub open spec fn after_metadata_view(reply: ReplyView) -> (StageView, ActionView) {
    match reply {
        ReplyView::Events(events) if events.len() > 0 => after_address_view(
            address_of_field(metadata_lud16(events[0].content)),
        ),
        _ => stop(ZapError::NotFound(Missing::Metadata)),
    }
}

/// What follows the signing of the zap request: the request for the invoice, with
/// the signed request attached.
pub open spec fn after_signing_view(
    receipt_key: Seq<char>,
    callback: Seq<char>,
    amount: u64,
    signed: Result<Seq<char>, Refusal>,
) -> (StageView, ActionView) {
    match signed {
        Err(refusal) => stop(refusal.error()),
        Ok(request) => (
            StageView::AwaitingInvoice { receipt_key },
            ActionView::FetchInvoice(invoice_url_text(callback, amount, request)),
        ),
    }
}

/// What follows the payment service's description of itself. A service that does
/// not accept zaps, or names no key for its receipts, ends the run before anything
/// is signed or requested.
pub open spec fn after_descriptor_view(
    config: ConfigView,
    reply: ReplyView,
    signed: Result<Seq<char>, Refusal>,
) -> (StageView, ActionView) {
    match reply {
        ReplyView::Descriptor(service) => match receipt_key_of(service) {
            Err(error) => stop(error),
            Ok(receipt_key) => after_signing_view(
                receipt_key,
                service.callback,
                config.amount_sats,
                signed,
            ),
        },
        ReplyView::Undecodable => stop(ZapError::Decode),
        _ => stop(ZapError::Network),
    }
}

/// What follows the payment service's answer to the request for an invoice: the
/// resolution of the Lightning node's host name.
pub open spec fn after_invoice_view(
    receipt_key: Seq<char>,
    config: ConfigView,
    reply: ReplyView,
) -> (StageView, ActionView) {
    match reply {
        ReplyView::Invoice(invoice) => (
            StageView::AwaitingAddresses { receipt_key, invoice },
            ActionView::Resolve(config.node_grpc_host),
        ),
        ReplyView::Undecodable => stop(ZapError::Decode),
        _ => stop(ZapError::Network),
    }
}

/// What follows the resolution of the node's host name: the opening of a session
/// with the first address.
pub open spec fn after_addresses_view(
    receipt_key: Seq<char>,
    invoice: Seq<char>,
    config: ConfigView,
    reply: ReplyView,
) -> (StageView, ActionView) {
    match reply {
        ReplyView::Addresses(addresses) => match endpoint_of(addresses, config) {
            Ok(endpoint) => (
                StageView::AwaitingSession { receipt_key, invoice },
                ActionView::Connect(endpoint),
            ),
            Err(error) => stop(error),
        },
        _ => stop(ZapError::Resolution),
    }
}

/// What follows the opening of the session: the payment.
pub open spec fn after_session_view(
    receipt_key: Seq<char>,
    invoice: Seq<char>,
    reply: ReplyView,
) -> (StageView, ActionView) {
    match reply {
        ReplyView::Connected => (
            StageView::AwaitingPayment { receipt_key },
            ActionView::Pay(invoice),
        ),
        _ => stop(ZapError::Connection),
    }
}

/// What follows the payment: the question for the receipt.
pub open spec fn after_payment_view(
    receipt_key: Seq<char>,
    target: Seq<char>,
    reply: ReplyView,
) -> (StageView, ActionView) {
    match reply {
        ReplyView::Paid => (
            StageView::AwaitingReceipt,
            ask_view(receipts_for_view(target, receipt_key)),
        ),
        _ => stop(ZapError::Payment),
    }
}

/// What follows the answer to the question for the receipt: the end of the run,
/// confirmed if a receipt was handed out, unconfirmed if none was.
pub open spec fn after_receipt_view(reply: ReplyView) -> (StageView, ActionView) {
    match reply {
        ReplyView::Events(events) if events.len() > 0 => (
            StageView::Done(Outcome::Confirmed),
            ActionView::Finish(Outcome::Confirmed),
        ),
        _ => (StageView::Done(Outcome::Unconfirmed), ActionView::Finish(Outcome::Unconfirmed)),
    }
}

/// A [`Pipeline`] as plain text and numbers.
pub struct PipelineView {
    pub config: ConfigView,
    pub target: Seq<char>,
    pub stage: StageView,
}

/// The stage that a run enters and the action that it names when `reply` comes in,
/// given what the signing of the zap request yields if it comes to that.
pub open spec fn advance(
    run: PipelineView,
    reply: ReplyView,
    signed: Result<Seq<char>, Refusal>,
) -> (StageView, ActionView) {
    match run.stage {
        StageView::AwaitingTarget => after_target_view(reply),
        StageView::AwaitingMetadata => after_metadata_view(reply),
        StageView::AwaitingDescriptor => after_descriptor_view(run.config, reply, signed),
        StageView::AwaitingInvoice { receipt_key } => after_invoice_view(
            receipt_key,
            run.config,
            reply,
        ),
        StageView::AwaitingAddresses { receipt_key, invoice } => after_addresses_view(
            receipt_key,
            invoice,
            run.config,
            reply,
        ),
        StageView::AwaitingSession { receipt_key, invoice } => after_session_view(
            receipt_key,
            invoice,
            reply,
        ),
        StageView::AwaitingPayment { receipt_key } => after_payment_view(
            receipt_key,
            run.target,
            reply,
        ),
        StageView::AwaitingReceipt => after_receipt_view(reply),
        StageView::Done(outcome) => (StageView::Done(outcome), ActionView::Finish(outcome)),
    }
}

/// Whether a run at `run` may, when `reply` comes in, enter `stage` and name
/// `action`: whether that is what [`advance`] gives for some yield of the signing.
pub open spec fn follows(
    run: PipelineView,
    reply: ReplyView,
    stage: StageView,
    action: ActionView,
) -> bool {
    exists|signed: Result<Seq<char>, Refusal>| #[trigger]
        advance(run, reply, signed) == (stage, action)
}

/// A run of the zap: the operator's settings, the event to zap, and how far the run
/// has come.
pub struct Pipeline {
    config: Config,
    keys: nostr_sdk::Keys,
    target: String,
    stage: Stage,
}

impl View for Pipeline {
    type V = PipelineView;

    closed spec fn view(&self) -> PipelineView {
        PipelineView { config: self.config@, target: self.target@, stage: self.stage@ }
    }
}

/// The action that puts `filter` to the relays.
pub fn ask(filter: RelayFilter) -> (action: Action)
    ensures
        action@ == ask_view(filter@),
{
    Action::Query { filter, timeout_secs: RELAY_TIMEOUT_SECS }
}

/// The end of a run on `error`.
pub fn halt(error: ZapError) -> (next: (Stage, Action))
    ensures
        next@ == stop(error),
{
    (Stage::Done(Outcome::Failed(error)), Action::Finish(Outcome::Failed(error)))
}

/// What follows the answer to the question for the event that is to be zapped.
pub fn after_target(reply: Reply) -> (next: (Stage, Action))
    ensures
        next@ == after_target_view(reply@),
{
    match reply {
        Reply::Events(events) => match first_event(events, Missing::TargetEvent) {
            Ok(event) => (
                Stage::AwaitingMetadata,
                ask(RelayFilter::metadata_of(event.author.as_str())),
            ),
            Err(error) => halt(error),
        },
        _ => halt(ZapError::NotFound(Missing::TargetEvent)),
    }
}

/// What follows a lightning address, or the failure to find one.
pub fn after_address(address: Result<String, ZapError>) -> (next: (Stage, Action))
    ensures
        next@ == after_address_view(result_view(address)),
{
    match address {
        Err(error) => halt(error),
        Ok(text) => match discovery_url(text.as_str()) {
            Err(error) => halt(error),
            Ok(url) => (Stage::AwaitingDescriptor, Action::FetchDescriptor(url)),
        },
    }
}

/// What follows the answer to the question for the author's metadata.
pub fn after_metadata(reply: Reply) -> (next: (Stage, Action))
    ensures
        next@ == after_metadata_view(reply@),
{
    match reply {
        Reply::Events(events) => match first_event(events, Missing::Metadata) {
            Ok(event) => after_address(lightning_address(event.content.as_str())),
            Err(error) => halt(error),
        },
        _ => halt(ZapError::NotFound(Missing::Metadata)),
    }
}

/// What follows the signing of the zap request.
pub fn after_signing(
    receipt_key: String,
    callback: &str,
    amount: u64,
    signed: Result<String, Refusal>,
) -> (next: (Stage, Action))
    ensures
        next@ == after_signing_view(
            receipt_key@,
            callback@,
            amount,
            result_view(signed),
        ),
{
    match signed {
        Err(refusal) => halt(refusal.to_error()),
        Ok(request) => (
            Stage::AwaitingInvoice { receipt_key },
            Action::FetchInvoice(invoice_url(callback, amount, request.as_str())),
        ),
    }
}

/// What follows the payment service's answer to the request for an invoice.
pub fn after_invoice(receipt_key: String, config: &Config, reply: Reply) -> (next: (
    Stage,
    Action,
))
    ensures
        next@ == after_invoice_view(receipt_key@, config@, reply@),
{
    match reply {
        Reply::Invoice(answer) => (
            Stage::AwaitingAddresses { receipt_key, invoice: answer.pr },
            Action::Resolve(config.node_grpc_host.clone()),
        ),
        Reply::Undecodable => halt(ZapError::Decode),
        _ => halt(ZapError::Network),
    }
}

/// What follows the resolution of the node's host name.
pub fn after_addresses(
    receipt_key: String,
    invoice: String,
    config: &Config,
    reply: Reply,
) -> (next: (Stage, Action))
    ensures
        next@ == after_addresses_view(receipt_key@, invoice@, config@, reply@),
{
    match reply {
        Reply::Addresses(addresses) => match endpoint(addresses, config) {
            Ok(found) => (
                Stage::AwaitingSession { receipt_key, invoice },
                Action::Connect(found),
            ),
            Err(error) => halt(error),
        },
        _ => halt(ZapError::Resolution),
    }
}

/// What follows the opening of the session.
pub fn after_session(receipt_key: String, invoice: String, reply: Reply) -> (next: (
    Stage,
    Action,
))
    ensures
        next@ == after_session_view(receipt_key@, invoice@, reply@),
{
    match reply {
        Reply::Connected => (Stage::AwaitingPayment { receipt_key }, Action::Pay(invoice)),
        _ => halt(ZapError::Connection),
    }
}

/// What follows the payment.
pub fn after_payment(receipt_key: String, target: &str, reply: Reply) -> (next: (Stage, Action))
    ensures
        next@ == after_payment_view(receipt_key@, target@, reply@),
{
    match reply {
        Reply::Paid => (
            Stage::AwaitingReceipt,
            ask(RelayFilter::receipts_for(target, receipt_key.as_str())),
        ),
        _ => halt(ZapError::Payment),
    }
}

/// What follows the answer to the question for the receipt.
pub fn after_receipt(reply: Reply) -> (next: (Stage, Action))
    ensures
        next@ == after_receipt_view(reply@),
{
    let seen = match reply {
        Reply::Events(events) => events.len() > 0,
        _ => false,
    };
    if seen {
        (Stage::Done(Outcome::Confirmed), Action::Finish(Outcome::Confirmed))
    } else {
        (Stage::Done(Outcome::Unconfirmed), Action::Finish(Outcome::Unconfirmed))
    }
}

/// The run that `start` sets up for the settings `config` and the event named by
/// `note`, or the error on which it refuses them.
pub open spec fn start_view(config: ConfigView, note: Seq<char>) -> Result<
    (PipelineView, ActionView),
    ZapError,
> {
    match target_id_of(note) {
        Err(error) => Err(error),
        Ok(target) => if is_secret_key(config.nsec) {
            Ok(
                (
                    PipelineView { config, target, stage: StageView::AwaitingTarget },
                    ask_view(by_id_view(target)),
                ),
            )
        } else {
            Err(ZapError::MalformedInput)
        },
    }
}

impl Pipeline {
    /// Sets up a run that is to zap the event named by the `note1…` string `note`,
    /// and names its first action: the question for that event.
    ///
    /// A `note` that names no event, or a signing key that is none, is refused as
    /// malformed before anything is asked of the outside world.
    pub fn start(config: Config, note: &str) -> (begun: Result<(Pipeline, Action), ZapError>)
        ensures
            result_view(begun) == start_view(config@, note@),
    {
        let target = match target_id(note) {
            Ok(target) => target,
            Err(error) => {
                return Err(error);
            },
        };
        let keys = match parse_keys(config.nsec.as_str()) {
            Some(keys) => keys,
            None => {
                return Err(ZapError::MalformedInput);
            },
        };
        let action = ask(RelayFilter::by_id(target.as_str()));
        Ok((Pipeline { config, keys, target, stage: Stage::AwaitingTarget }, action))
    }

    /// The operator's settings.
    pub fn config(&self) -> (config: &Config)
        ensures
            config@ == self@.config,
    {
        &self.config
    }

    /// The identifier of the event that is zapped, in hexadecimal.
    pub fn target(&self) -> (target: &String)
        ensures
            target@ == self@.target,
    {
        &self.target
    }

    /// How far the run has come.
    pub fn stage(&self) -> (stage: &Stage)
        ensures
            stage@ == self@.stage,
    {
        &self.stage
    }

    /// Whether the run has ended.
    pub fn finished(&self) -> (finished: bool)
        ensures
            finished == (self@.stage is Done),
    {
        match &self.stage {
            Stage::Done(_) => true,
            _ => false,
        }
    }

    /// The zap request of this run for a payment service whose receipts are signed
    /// with `receipt_key`: it refers to the event that is zapped, to that key, and to
    /// every relay of the operator's settings.
    pub fn zap_request(&self, receipt_key: &str) -> (intent: ZapIntent)
        ensures
            intent@ == zap_intent_view(self@.target, receipt_key@, self@.config.relays),
    {
        ZapIntent::new(self.target.as_str(), receipt_key, &self.config.relays)
    }

    /// What follows the payment service's description of itself.
    ///
    /// If the service accepts zaps and names its key, the zap request of this run is
    /// signed. The signature depends on the time and on chance, so of the request
    /// for the invoice only this is determined: that it is what
    /// [`after_signing_view`] makes of whatever the signing yielded.
    fn after_descriptor(&self, reply: Reply) -> (next: (Stage, Action))
        ensures
            exists|signed: Result<Seq<char>, Refusal>| #[trigger]
                after_descriptor_view(self@.config, reply@, signed) == next@,
    {
        let ghost answer = reply@;
        let ghost mut yielded = Err::<Seq<char>, Refusal>(Refusal::Signature);
        let next = match reply {
            Reply::Descriptor(service) => match service.receipt_key() {
                Err(error) => halt(error),
                Ok(receipt_key) => {
                    let intent = self.zap_request(receipt_key.as_str());
                    let signed = sign_intent(&self.keys, &intent);
                    proof {
                        yielded = result_view(signed);
                    }
                    after_signing(
                        receipt_key,
                        service.callback.as_str(),
                        self.config.amount_sats,
                        signed,
                    )
                },
            },
            Reply::Undecodable => halt(ZapError::Decode),
            _ => halt(ZapError::Network),
        };
        assert(after_descriptor_view(self@.config, answer, yielded) == next@);
        next
    }

    /// Takes in the answer to the last action and names the next one.
    ///
    /// An answer of another kind than the one awaited counts as the failure of what
    /// was awaited. Once the run has ended, every answer is met with the same
    /// [`Action::Finish`].
    pub fn step(&mut self, reply: Reply) -> (action: Action)
        ensures
            final(self)@.config == old(self)@.config,
            final(self)@.target == old(self)@.target,
            follows(old(self)@, reply@, final(self)@.stage, action@),
    {
        let ghost before = self@;
        let ghost answer = reply@;
        let ghost unused = Err::<Seq<char>, Refusal>(Refusal::Signature);
        let mut stage = Stage::AwaitingTarget;
        core::mem::swap(&mut self.stage, &mut stage);
        let (next, action) = match stage {
            Stage::AwaitingTarget => after_target(reply),
            Stage::AwaitingMetadata => after_metadata(reply),
            Stage::AwaitingDescriptor => self.after_descriptor(reply),
            Stage::AwaitingInvoice { receipt_key } => after_invoice(
                receipt_key,
                &self.config,
                reply,
            ),
            Stage::AwaitingAddresses { receipt_key, invoice } => after_addresses(
                receipt_key,
                invoice,
                &self.config,
                reply,
            ),
            Stage::AwaitingSession { receipt_key, invoice } => after_session(
                receipt_key,
                invoice,
                reply,
            ),
            Stage::AwaitingPayment { receipt_key } => after_payment(
                receipt_key,
                self.target.as_str(),
                reply,
            ),
            Stage::AwaitingReceipt => after_receipt(reply),
            Stage::Done(outcome) => (Stage::Done(outcome), Action::Finish(outcome)),
        };
        proof {
            if before.stage is AwaitingDescriptor {
                let signed = choose|signed: Result<Seq<char>, Refusal>| #[trigger]
                    after_descriptor_view(before.config, answer, signed) == (next@, action@);
                assert(advance(before, answer, signed) == (next@, action@));
            } else {
                assert(advance(before, answer, unused) == (next@, action@));
            }
        }
        self.stage = next;
        action
    }
}

} // verus!
