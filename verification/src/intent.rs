//! The zap request: the signed statement that a payment is meant for a post.

use std::str::FromStr;
use vstd::prelude::*;
use nostr_sdk::prelude::FromSkStr;
use crate::error::ZapError;
use crate::relay::KIND_ZAP_REQUEST;
use crate::text::{copy_texts, texts};

verus! {

/// One reference that a zap request makes.
#[derive(Clone, Debug, PartialEq, Eq)]
pub enum ZapTag {
    /// To the event that is zapped, by its identifier in hexadecimal.
    Event(String),
    /// To the key that will sign the receipt, in hexadecimal.
    PubKey(String),
    /// To the relays on which the receipt is to be published.
    Relays(Vec<String>),
}

/// A [`ZapTag`] as plain text.
pub enum ZapTagView {
    Event(Seq<char>),
    PubKey(Seq<char>),
    Relays(Seq<Seq<char>>),
}

impl View for ZapTag {
    type V = ZapTagView;

    open spec fn view(&self) -> ZapTagView {
        match self {
            ZapTag::Event(id) => ZapTagView::Event(id@),
            ZapTag::PubKey(key) => ZapTagView::PubKey(key@),
            ZapTag::Relays(relays) => ZapTagView::Relays(texts(relays@)),
        }
    }
}

/// A zap request before it is signed.
#[derive(Clone, Debug, PartialEq, Eq)]
pub struct ZapIntent {
    /// The kind of event that the request is.
    pub kind: u64,
    /// The note that goes with the zap.
    pub content: String,
    /// The references that the request makes.
    pub tags: Vec<ZapTag>,
}

/// A [`ZapIntent`] as plain text and numbers.
pub struct ZapIntentView {
    pub kind: u64,
    pub content: Seq<char>,
    pub tags: Seq<ZapTagView>,
}

impl View for ZapIntent {
    type V = ZapIntentView;

    open spec fn view(&self) -> ZapIntentView {
        ZapIntentView {
            kind: self.kind,
            content: self.content@,
            tags: self.tags@.map_values(|tag: ZapTag| tag@),
        }
    }
}

/// The request to zap the event `event`, with the receipt signed by `recipient` and
/// published on `relays`.
pub open spec fn zap_intent_view(
    event: Seq<char>,
    recipient: Seq<char>,
    relays: Seq<Seq<char>>,
) -> ZapIntentView {
    ZapIntentView {
        kind: KIND_ZAP_REQUEST,
        content: Seq::empty(),
        tags: seq![
            ZapTagView::Event(event),
            ZapTagView::PubKey(recipient),
            ZapTagView::Relays(relays),
        ],
    }
}

impl ZapIntent {
    /// The request to zap the event `event`, with the receipt signed by `recipient`
    /// and published on `relays`.
    pub fn new(event: &str, recipient: &str, relays: &Vec<String>) -> (intent: ZapIntent)
        ensures
            intent@ == zap_intent_view(event@, recipient@, texts(relays@)),
    {
        let mut tags: Vec<ZapTag> = Vec::new();
        tags.push(ZapTag::Event(event.to_owned()));
        tags.push(ZapTag::PubKey(recipient.to_owned()));
        tags.push(ZapTag::Relays(copy_texts(relays)));
        let intent = ZapIntent { kind: KIND_ZAP_REQUEST, content: String::new(), tags };
        assert(intent@.tags =~= zap_intent_view(event@, recipient@, texts(relays@)).tags);
        intent
    }
}

/// A zap request makes three references and no more: one to the event, one to the
/// key of the receipt, one to the whole list of relays. Which three they are
/// depends on nothing but those values, and the statement does not lean on the
/// order in which they stand.
pub proof fn lemma_intent_references(
    event: Seq<char>,
    recipient: Seq<char>,
    relays: Seq<Seq<char>>,
)
    ensures
        zap_intent_view(event, recipient, relays).tags.len() == 3,
        zap_intent_view(event, recipient, relays).tags.contains(ZapTagView::Event(event)),
        zap_intent_view(event, recipient, relays).tags.contains(ZapTagView::PubKey(recipient)),
        zap_intent_view(event, recipient, relays).tags.contains(ZapTagView::Relays(relays)),
        forall|tag: ZapTagView| #[trigger]
            zap_intent_view(event, recipient, relays).tags.contains(tag) ==> tag
                == ZapTagView::Event(event) || tag == ZapTagView::PubKey(recipient) || tag
                == ZapTagView::Relays(relays),
{
    let tags = zap_intent_view(event, recipient, relays).tags;
    assert(tags[0] == ZapTagView::Event(event));
    assert(tags[1] == ZapTagView::PubKey(recipient));
    assert(tags[2] == ZapTagView::Relays(relays));
}

/// Why no signed request came about.
#[derive(Clone, Copy, Debug, PartialEq, Eq, Structural)]
pub enum Refusal {
    /// The identifier of the event is no event identifier.
    EventId,
    /// The key named for the receipt is no public key.
    Recipient,
    /// One of the relays is no URL.
    Relay,
    /// The signing itself failed.
    Signature,
}

impl Refusal {
    /// The refusal that a reference of the kind of `tag` meets if it cannot be
    /// handed to the signer.
    pub open spec fn of_tag(tag: ZapTagView) -> Refusal {
        match tag {
            ZapTagView::Event(_) => Refusal::EventId,
            ZapTagView::PubKey(_) => Refusal::Recipient,
            ZapTagView::Relays(_) => Refusal::Relay,
        }
    }

    /// The error that a run ends on after this refusal. The key of the receipt came
    /// from the payment service, so a bad one is an undecodable answer; the event and
    /// the relays came from the operator.
    pub open spec fn error(self) -> ZapError {
        match self {
            Refusal::Recipient => ZapError::Decode,
            Refusal::EventId => ZapError::MalformedInput,
            Refusal::Relay => ZapError::MalformedInput,
            Refusal::Signature => ZapError::Signing,
        }
    }

    /// The error that a run ends on after this refusal.
    pub fn to_error(&self) -> (error: ZapError)
        ensures
            error == self.error(),
    {
        match self {
            Refusal::Recipient => ZapError::Decode,
            Refusal::EventId => ZapError::MalformedInput,
            Refusal::Relay => ZapError::MalformedInput,
            Refusal::Signature => ZapError::Signing,
        }
    }
}

/// nostr's pair of signing keys. Nothing is known of a value but that it exists.
#[verifier::external_type_specification]
#[verifier::external_body]
pub struct ExKeys(nostr_sdk::Keys);

/// nostr's form of a reference. Nothing is known of a value but that it exists.
#[verifier::external_type_specification]
#[verifier::external_body]
pub struct ExTag(nostr_sdk::Tag);

/// nostr's form of a URL. Nothing is known of a value but that it exists.
#[verifier::external_type_specification]
#[verifier::external_body]
pub struct ExUrl(nostr_sdk::Url);

/// Whether `text` is a secret key, written in hexadecimal or as an `nsec1…` string.
pub uninterp spec fn is_secret_key(text: Seq<char>) -> bool;

/// Reads the operator's signing keys.
///
/// Trusted: the body is nostr's `Keys::from_sk_str`. Whether it yields keys depends
/// on nothing but its argument, so that has a name, [`is_secret_key`]; nothing is
/// claimed of the keys themselves.
#[verifier::external_body]
pub(crate) fn parse_keys(secret: &str) -> (keys: Option<nostr_sdk::Keys>)
    ensures
        keys is Some <==> is_secret_key(secret@),
{
    nostr_sdk::Keys::from_sk_str(secret).ok()
}

/// Whether `c` is a hexadecimal digit, in either case.
pub open spec fn is_hex_digit(c: char) -> bool {
    ||| 0x30 <= c as u32 <= 0x39
    ||| 0x41 <= c as u32 <= 0x46
    ||| 0x61 <= c as u32 <= 0x66
}

/// Whether `text` is an event identifier in hexadecimal: sixty-four hexadecimal
/// digits, which stand for the thirty-two bytes of a hash.
pub open spec fn is_event_id(text: Seq<char>) -> bool {
    &&& text.len() == 64
    &&& forall|i: int| 0 <= i < text.len() ==> is_hex_digit(#[trigger] text[i])
}

/// Whether `text` is a public key in hexadecimal: the coordinate of a point of the
/// curve.
pub uninterp spec fn is_public_key(text: Seq<char>) -> bool;

/// Whether `text` is a URL.
pub uninterp spec fn is_url(text: Seq<char>) -> bool;

/// Whether every text of `list` is a URL.
pub open spec fn all_urls(list: Seq<Seq<char>>) -> bool {
    forall|i: int| 0 <= i < list.len() ==> is_url(#[trigger] list[i])
}

/// Whether a reference can be handed to the signer: whether what it names is
/// well-formed.
pub open spec fn admissible(tag: ZapTagView) -> bool {
    match tag {
        ZapTagView::Event(id) => is_event_id(id),
        ZapTagView::PubKey(key) => is_public_key(key),
        ZapTagView::Relays(relays) => all_urls(relays),
    }
}

/// Whether the `i`-th of `tags` is the first that cannot be handed to the signer.
pub open spec fn is_first_refused(tags: Seq<ZapTagView>, i: int) -> bool {
    &&& 0 <= i < tags.len()
    &&& !admissible(tags[i])
    &&& forall|j: int| 0 <= j < i ==> admissible(#[trigger] tags[j])
}

/// Whether every one of `tags` can be handed to the signer.
pub open spec fn all_admissible(tags: Seq<ZapTagView>) -> bool {
    forall|i: int| 0 <= i < tags.len() ==> admissible(#[trigger] tags[i])
}

/// nostr's reference to the event with identifier `id`, if `id` is one.
///
/// Trusted: the body is nostr's `EventId::from_hex`, whose result it puts into a
/// `Tag::Event` without relay or marker. `from_hex` reads its argument as a SHA-256
/// hash in hexadecimal: it takes a text of sixty-four bytes, each of them a
/// hexadecimal digit in either case, and no other. The contract states that;
/// nothing is claimed of the reference itself.
#[verifier::external_body]
fn event_tag(id: &str) -> (made: Option<nostr_sdk::Tag>)
    ensures
        made is Some <==> is_event_id(id@),
{
    nostr_sdk::EventId::from_hex(id).ok().map(|id| nostr_sdk::Tag::Event(id, None, None))
}

/// nostr's reference to the public key `key`, if `key` is one.
///
/// Trusted: the body is secp256k1's `XOnlyPublicKey::from_str`, whose result it puts
/// into a `Tag::PubKey` without relay. Whether `from_str` yields a key depends on
/// nothing but its argument, so that has a name, [`is_public_key`]; nothing is
/// claimed of the reference itself.
#[verifier::external_body]
fn pubkey_tag(key: &str) -> (made: Option<nostr_sdk::Tag>)
    ensures
        made is Some <==> is_public_key(key@),
{
    nostr_sdk::secp256k1::XOnlyPublicKey::from_str(key).ok().map(
        |key| nostr_sdk::Tag::PubKey(key, None),
    )
}

/// The URL that `text` is, if it is one.
///
/// Trusted: the body is the url crate's `Url::from_str`. Whether it yields a URL
/// depends on nothing but its argument, so that has a name, [`is_url`]; nothing is
/// claimed of the URL itself.
#[verifier::external_body]
fn parse_url(text: &str) -> (url: Option<nostr_sdk::Url>)
    ensures
        url is Some <==> is_url(text@),
{
    nostr_sdk::Url::from_str(text).ok()
}

/// nostr's reference to a list of relays.
///
/// Trusted: the body puts the URLs into a `Tag::Relays`. Nothing is claimed of the
/// result.
#[verifier::external_body]
fn relays_tag(urls: Vec<nostr_sdk::Url>) -> (made: nostr_sdk::Tag) {
    nostr_sdk::Tag::Relays(urls)
}

/// Builds an event, signs it and writes it out as JSON.
///
/// Trusted: the body is nostr's `EventBuilder::new`, `EventBuilder::to_event` and
/// `Event::as_json`. The event is stamped with the time of the call and signed with
/// fresh randomness, so nothing is claimed of the result: two calls on the same
/// arguments give different texts.
#[verifier::external_body]
fn sign_event(
    keys: &nostr_sdk::Keys,
    kind: u64,
    content: &str,
    tags: Vec<nostr_sdk::Tag>,
) -> (signed: Option<String>) {
    let builder = nostr_sdk::EventBuilder::new(nostr_sdk::Kind::from(kind), content, &tags);
    builder.to_event(keys).ok().map(|event| event.as_json())
}

/// nostr's forms of the URLs in `relays`: one for each if every one of them is a
/// URL, and nothing if one of them is none.
fn relay_urls(relays: &Vec<String>) -> (parsed: Option<Vec<nostr_sdk::Url>>)
    ensures
        parsed is Some <==> all_urls(texts(relays@)),
        parsed matches Some(urls) ==> urls.len() == relays.len(),
{
    let mut urls: Vec<nostr_sdk::Url> = Vec::new();
    let mut i: usize = 0;
    while i < relays.len()
        invariant
            i <= relays.len(),
            urls.len() == i,
            forall|j: int| 0 <= j < i ==> is_url(#[trigger] texts(relays@)[j]),
        decreases relays.len() - i,
    {
        match parse_url(relays[i].as_str()) {
            Some(url) => urls.push(url),
            None => {
                assert(!is_url(texts(relays@)[i as int]));
                return None;
            },
        }
        assert(is_url(texts(relays@)[i as int]));
        i += 1;
    }
    Some(urls)
}

/// nostr's form of one reference if what it names is well-formed, and else the
/// refusal that goes with the kind of the reference.
fn outside_tag(tag: &ZapTag) -> (made: Result<nostr_sdk::Tag, Refusal>)
    ensures
        made is Ok <==> admissible(tag@),
        made matches Err(refusal) ==> refusal == Refusal::of_tag(tag@),
{
    match tag {
        ZapTag::Event(id) => match event_tag(id.as_str()) {
            Some(made) => Ok(made),
            None => Err(Refusal::EventId),
        },
        ZapTag::PubKey(key) => match pubkey_tag(key.as_str()) {
            Some(made) => Ok(made),
            None => Err(Refusal::Recipient),
        },
        ZapTag::Relays(relays) => match relay_urls(relays) {
            Some(urls) => Ok(relays_tag(urls)),
            None => Err(Refusal::Relay),
        },
    }
}

/// Signs `intent` with `keys` and writes the signed event out as JSON.
///
/// The references are handed to the signer in their order. The first that is not
/// well-formed ends the attempt with its refusal, before anything is signed. If
/// all are well-formed the signer decides: the signature depends on the time and
/// on chance, so the text that comes back is not determined by the arguments, and
/// the only refusal left is that of the signing itself.
pub(crate) fn sign_intent(keys: &nostr_sdk::Keys, intent: &ZapIntent) -> (signed: Result<
    String,
    Refusal,
>)
    ensures
        forall|i: int| #[trigger]
            is_first_refused(intent@.tags, i) ==> signed == Err::<String, Refusal>(
                Refusal::of_tag(intent@.tags[i]),
            ),
        all_admissible(intent@.tags) ==> signed is Ok || signed == Err::<String, Refusal>(
            Refusal::Signature,
        ),
{
    let mut tags: Vec<nostr_sdk::Tag> = Vec::new();
    let mut i: usize = 0;
    while i < intent.tags.len()
        invariant
            i <= intent.tags.len(),
            tags.len() == i,
            forall|j: int| 0 <= j < i ==> admissible(#[trigger] intent@.tags[j]),
        decreases intent.tags.len() - i,
    {
        match outside_tag(&intent.tags[i]) {
            Ok(made) => tags.push(made),
            Err(refusal) => {
                assert(is_first_refused(intent@.tags, i as int));
                assert forall|k: int| #[trigger] is_first_refused(intent@.tags, k) implies k
                    == i by {
                    if k < i {
                        assert(admissible(intent@.tags[k]));
                    } else if i < k {
                        assert(admissible(intent@.tags[i as int]));
                    }
                }
                return Err(refusal);
            },
        }
        assert(admissible(intent@.tags[i as int]));
        i += 1;
    }
    match sign_event(keys, intent.kind, intent.content.as_str(), tags) {
        Some(signed) => Ok(signed),
        None => Err(Refusal::Signature),
    }
}

} // verus!
