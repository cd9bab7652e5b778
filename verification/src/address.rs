//! Lightning addresses and the discovery URL that each one stands for.

use vstd::prelude::*;
use vstd::string::*;
use crate::error::ZapError;
use crate::text::{chars_of, contains_text, find_first, has_substring, is_first_index_of};

verus! {

/// The character that parts the name of a lightning address from its domain.
pub const SEPARATOR: char = '@';

/// A lightning address `name@domain`, taken apart at its first `@`.
#[derive(Clone, Debug, PartialEq, Eq)]
pub struct LightningAddress {
    /// What stands before the first `@`.
    pub name: String,
    /// What stands after the first `@`.
    pub domain: String,
}

/// The name and the domain of the address written as `text`, if `text` holds an `@`.
pub open spec fn split_address(text: Seq<char>) -> Option<(Seq<char>, Seq<char>)> {
    if text.contains(SEPARATOR) {
        let at = choose|at: int| is_first_index_of(text, SEPARATOR, at);
        Some((text.take(at), text.skip(at + 1)))
    } else {
        None
    }
}

/// The scheme under which the payment service of `domain` is reached:
/// plain `http` for a service on this machine, `https` for every other.
pub open spec fn scheme_text(domain: Seq<char>) -> Seq<char> {
    if has_substring(domain, "localhost"@) {
        "http"@
    } else {
        "https"@
    }
}

/// The discovery URL of the address `name@domain`.
pub open spec fn discovery_url_text(name: Seq<char>, domain: Seq<char>) -> Seq<char> {
    scheme_text(domain) + "://"@ + domain + "/.well-known/lnurlp/"@ + name
}

/// The discovery URL of the address written as `text`, if `text` holds an `@`.
pub open spec fn discovery_url_of(text: Seq<char>) -> Option<Seq<char>> {
    match split_address(text) {
        Some((name, domain)) => Some(discovery_url_text(name, domain)),
        None => None,
    }
}

/// The first index of a character in a text is the only index that is the first.
pub proof fn lemma_first_index_unique(text: Seq<char>, mark: char, a: int, b: int)
    requires
        is_first_index_of(text, mark, a),
        is_first_index_of(text, mark, b),
    ensures
        a == b,
{
}

/// A text `name@domain` whose name holds no `@` splits into exactly that name and domain.
pub proof fn lemma_split_address(name: Seq<char>, domain: Seq<char>)
    requires
        !name.contains(SEPARATOR),
    ensures
        split_address(name + seq![SEPARATOR] + domain) == Some((name, domain)),
{
    let text = name + seq![SEPARATOR] + domain;
    let at = name.len() as int;
    assert(is_first_index_of(text, SEPARATOR, at));
    let chosen = choose|i: int| is_first_index_of(text, SEPARATOR, i);
    lemma_first_index_unique(text, SEPARATOR, at, chosen);
}

impl LightningAddress {
    /// The address as it is written.
    pub open spec fn text(&self) -> Seq<char> {
        self.name@ + seq![SEPARATOR] + self.domain@
    }

    /// Takes `text` apart at its first `@`.
    ///
    /// A text without `@` is no lightning address and is refused.
    pub fn parse(text: &str) -> (parsed: Result<LightningAddress, ZapError>)
        ensures
            parsed is Err <==> !text@.contains(SEPARATOR),
            parsed matches Err(error) ==> error == ZapError::MalformedInput,
            parsed matches Ok(address) ==> {
                &&& address.text() == text@
                &&& !address.name@.contains(SEPARATOR)
                &&& split_address(text@) == Some((address.name@, address.domain@))
            },
    {
        let chars = chars_of(text);
        match find_first(&chars, SEPARATOR) {
            None => Err(ZapError::MalformedInput),
            Some(at) => {
                let len = chars.len();
                let name = text.substring_char(0, at).to_owned();
                let domain = text.substring_char(at + 1, len).to_owned();
                proof {
                    let chosen = choose|i: int| is_first_index_of(text@, SEPARATOR, i);
                    lemma_first_index_unique(text@, SEPARATOR, at as int, chosen);
                }
                Ok(LightningAddress { name, domain })
            },
        }
    }

    /// The URL at which the address's payment service describes itself.
    pub fn discovery_url(&self) -> (url: String)
        ensures
            url@ == discovery_url_text(self.name@, self.domain@),
    {
        let local = contains_text(self.domain.as_str(), "localhost");
        let mut url = if local {
            String::from_str("http")
        } else {
            String::from_str("https")
        };
        url.append("://");
        url.append(self.domain.as_str());
        url.append("/.well-known/lnurlp/");
        url.append(self.name.as_str());
        url
    }
}

/// The discovery URL of the lightning address written as `text`.
pub fn discovery_url(text: &str) -> (url: Result<String, ZapError>)
    ensures
        url is Err <==> !text@.contains(SEPARATOR),
        url matches Err(error) ==> error == ZapError::MalformedInput,
        url matches Ok(found) ==> discovery_url_of(text@) == Some(found@),
{
    match LightningAddress::parse(text) {
        Ok(address) => Ok(address.discovery_url()),
        Err(error) => Err(error),
    }
}

/// For every address `name@domain` whose name holds no `@`, the discovery URL is
/// `http://domain/.well-known/lnurlp/name` if the domain holds `localhost`, and
/// `https://domain/.well-known/lnurlp/name` if it does not.
pub proof fn lemma_discovery_url(name: Seq<char>, domain: Seq<char>)
    requires
        !name.contains(SEPARATOR),
    ensures
        has_substring(domain, "localhost"@) ==> discovery_url_of(name + seq![SEPARATOR] + domain)
            == Some("http://"@ + domain + "/.well-known/lnurlp/"@ + name),
        !has_substring(domain, "localhost"@) ==> discovery_url_of(name + seq![SEPARATOR] + domain)
            == Some("https://"@ + domain + "/.well-known/lnurlp/"@ + name),
{
    lemma_split_address(name, domain);
    reveal_strlit("http");
    reveal_strlit("https");
    reveal_strlit("://");
    reveal_strlit("http://");
    reveal_strlit("https://");
}

} // verus!
