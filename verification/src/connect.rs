//! From a hostname to the address of its homeserver, and from the outcome
//! of constructing a client to what the login form is told.

use url::{ParseError, Url};
use vstd::prelude::*;
use vstd::string::*;

verus! {

/// `url::Url`, a parsed absolute URL. Nothing is known of what it holds.
#[verifier::external_type_specification]
#[verifier::external_body]
pub struct ExUrl(url::Url);

/// `url::ParseError`, the reason why a text is no absolute URL. Nothing is
/// known of what it holds.
#[verifier::external_type_specification]
#[verifier::external_body]
pub struct ExParseError(url::ParseError);

/// What `url::Url::parse` returns for a text.
pub uninterp spec fn url_parse(input: Seq<char>) -> Result<Url, ParseError>;

/// `url::Url::parse` reads its input and nothing else, so one text always
/// gives one result. Which texts are URLs is left to the parser.
pub assume_specification[ url::Url::parse ](input: &str) -> (parsed: Result<Url, ParseError>)
    ensures
        parsed == url_parse(input@),
;

/// The address of the homeserver of a hostname: the hostname behind the
/// scheme of secure HTTP.
pub open spec fn homeserver_address_of(hostname: Seq<char>) -> Seq<char> {
    "https://"@ + hostname
}

/// What the user is told when the address of the homeserver is no URL.
pub open spec fn url_failure() -> Seq<char> {
    "Failed to parase homeserver URL"@
}

/// What the user is told when no client could be constructed.
pub open spec fn client_failure() -> Seq<char> {
    "Could not create client"@
}

/// Writes the address of the homeserver of `hostname`.
pub fn homeserver_address(hostname: &str) -> (address: String)
    ensures
        address@ == homeserver_address_of(hostname@),
{
    "https://".to_owned().concat(hostname)
}

/// Keeps a parsed URL, and replaces the parser's reason for a failure by
/// the text that the user is told.
pub fn url_or_failure(parsed: Result<Url, ParseError>) -> (result: Result<Url, String>)
    ensures
        match parsed {
            Ok(url) => result == Ok::<Url, String>(url),
            Err(_) => result matches Err(text) && text@ == url_failure(),
        },
{
    match parsed {
        Ok(url) => Ok(url),
        Err(_) => Err("Failed to parase homeserver URL".to_owned()),
    }
}

/// The URL of the homeserver of `hostname`: the parser's reading of the
/// homeserver's address, or the text that the user is told when the parser
/// rejects it.
pub fn homeserver_url(hostname: &str) -> (result: Result<Url, String>)
    ensures
        match url_parse(homeserver_address_of(hostname@)) {
            Ok(url) => result == Ok::<Url, String>(url),
            Err(_) => result matches Err(text) && text@ == url_failure(),
        },
{
    let address = homeserver_address(hostname);
    url_or_failure(Url::parse(address.as_str()))
}

/// Keeps a constructed client, and replaces the reason for a failed
/// construction by the text that the user is told.
pub fn connect_to_client<C, E>(constructed: Result<C, E>) -> (result: Result<C, String>)
    ensures
        match constructed {
            Ok(client) => result == Ok::<C, String>(client),
            Err(_) => result matches Err(text) && text@ == client_failure(),
        },
{
    match constructed {
        Ok(client) => Ok(client),
        Err(_) => Err("Could not create client".to_owned()),
    }
}

} // verus!
