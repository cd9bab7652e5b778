//! Events as the relays hand them out, the questions put to the relays, and what is
//! read out of the answers.

use vstd::prelude::*;
use vstd::string::*;
use nostr_sdk::prelude::FromBech32;
use crate::error::{Missing, ZapError};
use crate::text::{nested_text, option_text, result_view};

verus! {

/// The kind of an event that holds its author's profile metadata.
pub const KIND_METADATA: u64 = 0;

/// The kind of an event that states the intent to zap.
pub const KIND_ZAP_REQUEST: u64 = 9734;

/// The kind of an event with which a payment service acknowledges a zap.
pub const KIND_ZAP_RECEIPT: u64 = 9735;

/// How many seconds a question to the relays may stay unanswered.
pub const RELAY_TIMEOUT_SECS: u64 = 10;

/// An event as a relay handed it out.
#[derive(Clone, Debug, PartialEq, Eq)]
pub struct RelayEvent {
    /// The event's identifier, in hexadecimal.
    pub id: String,
    /// The public key of the event's author, in hexadecimal.
    pub author: String,
    /// The event's content.
    pub content: String,
    /// The author's signature over the event, in hexadecimal.
    pub signature: String,
}

/// A [`RelayEvent`] as plain text.
pub struct RelayEventView {
    pub id: Seq<char>,
    pub author: Seq<char>,
    pub content: Seq<char>,
    pub signature: Seq<char>,
}

impl View for RelayEvent {
    type V = RelayEventView;

    open spec fn view(&self) -> RelayEventView {
        RelayEventView {
            id: self.id@,
            author: self.author@,
            content: self.content@,
            signature: self.signature@,
        }
    }
}

/// The events of a list, each as plain text.
pub open spec fn event_views(events: Seq<RelayEvent>) -> Seq<RelayEventView> {
    events.map_values(|event: RelayEvent| event@)
}

/// A question to the relays: which events to hand out.
///
/// Each field that is set narrows the answer; a field left out narrows nothing.
#[derive(Clone, Debug, PartialEq, Eq)]
pub struct RelayFilter {
    /// The identifier that the event must have.
    pub id: Option<String>,
    /// The author that the event must have.
    pub author: Option<String>,
    /// The kind that the event must be of.
    pub kind: Option<u64>,
    /// The event that the event must refer to.
    pub event: Option<String>,
    /// The public key that the event must refer to.
    pub pubkey: Option<String>,
    /// The most events that are wanted.
    pub limit: Option<usize>,
}

/// A [`RelayFilter`] as plain text and numbers.
pub struct RelayFilterView {
    pub id: Option<Seq<char>>,
    pub author: Option<Seq<char>>,
    pub kind: Option<u64>,
    pub event: Option<Seq<char>>,
    pub pubkey: Option<Seq<char>>,
    pub limit: Option<usize>,
}

impl View for RelayFilter {
    type V = RelayFilterView;

    open spec fn view(&self) -> RelayFilterView {
        RelayFilterView {
            id: option_text(self.id),
            author: option_text(self.author),
            kind: self.kind,
            event: option_text(self.event),
            pubkey: option_text(self.pubkey),
            limit: self.limit,
        }
    }
}

/// The question for the one event with identifier `id`.
pub open spec fn by_id_view(id: Seq<char>) -> RelayFilterView {
    RelayFilterView {
        id: Some(id),
        author: None,
        kind: None,
        event: None,
        pubkey: None,
        limit: Some(1),
    }
}

/// The question for the latest profile metadata of `author`.
pub open spec fn metadata_of_view(author: Seq<char>) -> RelayFilterView {
    RelayFilterView {
        id: None,
        author: Some(author),
        kind: Some(KIND_METADATA),
        event: None,
        pubkey: None,
        limit: Some(1),
    }
}

/// The question for the receipts of zaps of the event `event` that name the key
/// `pubkey`.
pub open spec fn receipts_for_view(event: Seq<char>, pubkey: Seq<char>) -> RelayFilterView {
    RelayFilterView {
        id: None,
        author: None,
        kind: Some(KIND_ZAP_RECEIPT),
        event: Some(event),
        pubkey: Some(pubkey),
        limit: None,
    }
}

impl RelayFilter {
    /// The question for the one event with identifier `id`.
    pub fn by_id(id: &str) -> (filter: RelayFilter)
        ensures
            filter@ == by_id_view(id@),
    {
        RelayFilter {
            id: Some(id.to_owned()),
            author: None,
            kind: None,
            event: None,
            pubkey: None,
            limit: Some(1),
        }
    }

    /// The question for the latest profile metadata of `author`.
    pub fn metadata_of(author: &str) -> (filter: RelayFilter)
        ensures
            filter@ == metadata_of_view(author@),
    {
        RelayFilter {
            id: None,
            author: Some(author.to_owned()),
            kind: Some(KIND_METADATA),
            event: None,
            pubkey: None,
            limit: Some(1),
        }
    }

    /// The question for the receipts of zaps of the event `event` that name the key
    /// `pubkey`.
    pub fn receipts_for(event: &str, pubkey: &str) -> (filter: RelayFilter)
        ensures
            filter@ == receipts_for_view(event@, pubkey@),
    {
        RelayFilter {
            id: None,
            author: None,
            kind: Some(KIND_ZAP_RECEIPT),
            event: Some(event.to_owned()),
            pubkey: Some(pubkey.to_owned()),
            limit: None,
        }
    }
}

/// The first of the events that the relays handed out, or the notice that `missing`
/// was not found if they handed out none.
pub open spec fn first_event_of(events: Seq<RelayEventView>, missing: Missing) -> Result<
    RelayEventView,
    ZapError,
> {
    if events.len() > 0 {
        Ok(events[0])
    } else {
        Err(ZapError::NotFound(missing))
    }
}

/// Picks the first of the events that the relays handed out in answer to a question
/// for `missing`.
pub fn first_event(events: Vec<RelayEvent>, missing: Missing) -> (first: Result<
    RelayEvent,
    ZapError,
>)
    ensures
        result_view(first) == first_event_of(event_views(events@), missing),
{
    let mut events = events;
    if events.len() == 0 {
        Err(ZapError::NotFound(missing))
    } else {
        Ok(events.remove(0))
    }
}

/// The hexadecimal identifier that the `note1…` string `encoded` stands for, if it
/// stands for one.
pub uninterp spec fn note_id_hex(encoded: Seq<char>) -> Option<Seq<char>>;

/// Decodes an event identifier given as a `note1…` string.
///
/// Trusted: the body is nostr's `EventId::from_bech32`, with `EventId::to_hex` on
/// what it yields. Both read nothing but their argument, so the result has a name,
/// [`note_id_hex`]; nothing more is claimed of it.
#[verifier::external_body]
fn decode_note_id(encoded: &str) -> (id: Option<String>)
    ensures
        option_text(id) == note_id_hex(encoded@),
{
    nostr_sdk::EventId::from_bech32(encoded).ok().map(|id| id.to_hex())
}

/// The identifier of the event that a run is asked to zap, or the notice that
/// `encoded` is malformed.
pub open spec fn target_id_of(encoded: Seq<char>) -> Result<Seq<char>, ZapError> {
    match note_id_hex(encoded) {
        Some(id) => Ok(id),
        None => Err(ZapError::MalformedInput),
    }
}

/// Reads the identifier of the event to zap from the `note1…` string that names it.
pub fn target_id(encoded: &str) -> (id: Result<String, ZapError>)
    ensures
        result_view(id) == target_id_of(encoded@),
{
    match decode_note_id(encoded) {
        Some(hex) => Ok(hex),
        None => Err(ZapError::MalformedInput),
    }
}

/// What the profile document `document` holds as its lightning address: nothing at
/// all if it is no profile document, else the field `lud16`, which may be absent.
pub uninterp spec fn metadata_lud16(document: Seq<char>) -> Option<Option<Seq<char>>>;

/// Reads the lightning address out of a profile document.
///
/// Trusted: the body is nostr's `Metadata::from_json`, of whose result it hands on
/// the field `lud16`. The call reads nothing but its argument, so the result has a
/// name, [`metadata_lud16`]; nothing more is claimed of it.
#[verifier::external_body]
fn read_lud16(document: &str) -> (field: Option<Option<String>>)
    ensures
        nested_text(field) == metadata_lud16(document@),
{
    nostr_sdk::Metadata::from_json(document).ok().map(|metadata| metadata.lud16)
}

/// The lightning address that a profile gives, from what was read out of it: an
/// unreadable profile is a decoding failure; an absent or empty address is not found.
pub open spec fn address_of_field(field: Option<Option<Seq<char>>>) -> Result<
    Seq<char>,
    ZapError,
> {
    match field {
        None => Err(ZapError::Decode),
        Some(None) => Err(ZapError::NotFound(Missing::LightningAddress)),
        Some(Some(address)) => if address.len() == 0 {
            Err(ZapError::NotFound(Missing::LightningAddress))
        } else {
            Ok(address)
        },
    }
}

/// The lightning address that a profile gives, from what was read out of it.
pub fn address_from_field(field: Option<Option<String>>) -> (address: Result<String, ZapError>)
    ensures
        result_view(address) == address_of_field(nested_text(field)),
{
    match field {
        None => Err(ZapError::Decode),
        Some(None) => Err(ZapError::NotFound(Missing::LightningAddress)),
        Some(Some(address)) => {
            if address.as_str().is_empty() {
                Err(ZapError::NotFound(Missing::LightningAddress))
            } else {
                Ok(address)
            }
        },
    }
}

/// The lightning address that the profile document `document` gives.
pub fn lightning_address(document: &str) -> (address: Result<String, ZapError>)
    ensures
        result_view(address) == address_of_field(metadata_lud16(document@)),
{
    address_from_field(read_lud16(document))
}

} // verus!
