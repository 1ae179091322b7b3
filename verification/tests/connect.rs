use matrix_login::connect::{connect_to_client, homeserver_address, homeserver_url, url_or_failure};
use url::{ParseError, Url};

const URL_FAILURE: &str = "Failed to parase homeserver URL";
const CLIENT_FAILURE: &str = "Could not create client";

#[test]
fn address_puts_the_scheme_before_the_hostname() {
    assert_eq!(homeserver_address("matrix.org"), "https://matrix.org");
}

#[test]
fn address_of_the_empty_hostname_is_the_scheme() {
    assert_eq!(homeserver_address(""), "https://");
}

#[test]
fn address_keeps_the_hostname_as_typed() {
    assert_eq!(homeserver_address("Example.ORG:8448/x y"), "https://Example.ORG:8448/x y");
}

#[test]
fn url_of_a_plain_hostname() {
    let url = homeserver_url("matrix.org").unwrap();
    assert_eq!(url.as_str(), "https://matrix.org/");
    assert_eq!(url.scheme(), "https");
    assert_eq!(url.host_str(), Some("matrix.org"));
}

#[test]
fn url_is_the_parser_s_reading_of_the_address() {
    let url = homeserver_url("Example.org:8448").unwrap();
    assert_eq!(url, Url::parse("https://Example.org:8448").unwrap());
    assert_eq!(url.host_str(), Some("example.org"));
    assert_eq!(url.port(), Some(8448));
}

#[test]
fn empty_hostname_is_no_url() {
    assert_eq!(homeserver_url(""), Err(URL_FAILURE.to_string()));
}

#[test]
fn hostname_with_a_space_is_no_url() {
    assert_eq!(homeserver_url("exa mple.org"), Err(URL_FAILURE.to_string()));
}

#[test]
fn parsed_url_is_kept() {
    let url = Url::parse("https://matrix.org").unwrap();
    assert_eq!(url_or_failure(Ok(url.clone())), Ok(url));
}

#[test]
fn parse_error_becomes_the_fixed_explanation() {
    assert_eq!(url_or_failure(Err(ParseError::EmptyHost)), Err(URL_FAILURE.to_string()));
    assert_eq!(url_or_failure(Err(ParseError::InvalidPort)), Err(URL_FAILURE.to_string()));
}

#[test]
fn constructed_client_is_kept() {
    let constructed: Result<u32, &str> = Ok(7);
    assert_eq!(connect_to_client(constructed), Ok(7));
}

#[test]
fn failed_construction_becomes_the_fixed_explanation() {
    let constructed: Result<u32, &str> = Err("no route to host");
    assert_eq!(connect_to_client(constructed), Err(CLIENT_FAILURE.to_string()));
}
