use rtc_socket::address::Address;
use rtc_socket::util::check_endpoint;
use rtc_socket::util::default_port;
use rtc_socket::util::parse_server_url;
use rtc_socket::util::url_to_socket_addr;
use rtc_socket::util::UrlError;

#[test]
fn bare_server_urls_are_accepted() {
    for text in [
        "http://127.0.0.1:9000",
        "http://127.0.0.1:5659",
        "https://example.org",
        "http://example.org/",
        "http://example.org/one",
        "http://[::1]:8080",
    ] {
        match parse_server_url(text) {
            Ok(parsed) => assert_eq!(parsed.as_str(), text),
            Err(fault) => panic!("{} refused: {:?}", text, fault),
        }
    }
}

#[test]
fn text_that_is_no_url_is_malformed() {
    for text in ["", "127.0.0.1:9000x", "not a url", "http://", "//example.org"] {
        assert_eq!(parse_server_url(text).err(), Some(UrlError::Malformed), "{}", text);
    }
}

#[test]
fn url_with_a_path_is_refused() {
    assert_eq!(parse_server_url("http://example.org/a/b").err(), Some(UrlError::HasPath));
    assert_eq!(parse_server_url("http://example.org/a/").err(), Some(UrlError::HasPath));
    assert_eq!(parse_server_url("http://example.org/a/b?q=1#f").err(), Some(UrlError::HasPath));
}

#[test]
fn url_with_a_query_is_refused() {
    assert_eq!(parse_server_url("http://example.org?q=1").err(), Some(UrlError::HasQuery));
    assert_eq!(parse_server_url("http://example.org/?").err(), Some(UrlError::HasQuery));
    assert_eq!(parse_server_url("http://example.org/a?q#f").err(), Some(UrlError::HasQuery));
}

#[test]
fn url_with_a_fragment_is_refused() {
    assert_eq!(parse_server_url("http://example.org#top").err(), Some(UrlError::HasFragment));
    assert_eq!(parse_server_url("http://example.org/#").err(), Some(UrlError::HasFragment));
}

#[test]
fn url_that_cannot_be_a_base_has_no_path_to_count() {
    assert!(parse_server_url("mailto:someone@example.org").is_ok());
    assert_eq!(parse_server_url("data:text/plain,a/b/c#f").err(), Some(UrlError::HasFragment));
}

#[test]
fn check_endpoint_orders_its_findings() {
    assert_eq!(check_endpoint(None, false, false), Ok(()));
    assert_eq!(check_endpoint(Some(0), false, false), Ok(()));
    assert_eq!(check_endpoint(Some(1), false, false), Ok(()));
    assert_eq!(check_endpoint(Some(2), false, false), Err(UrlError::HasPath));
    assert_eq!(check_endpoint(Some(usize::MAX), true, true), Err(UrlError::HasPath));
    assert_eq!(check_endpoint(Some(1), true, false), Err(UrlError::HasQuery));
    assert_eq!(check_endpoint(None, true, true), Err(UrlError::HasQuery));
    assert_eq!(check_endpoint(Some(1), false, true), Err(UrlError::HasFragment));
}

#[test]
fn default_ports_of_schemes() {
    assert_eq!(default_port("http"), Some(80));
    assert_eq!(default_port("https"), Some(443));
    assert_eq!(default_port("ws"), None);
    assert_eq!(default_port("HTTP"), None);
    assert_eq!(default_port(""), None);
}

#[test]
fn server_url_default_port_goes_by_the_parsed_scheme() {
    let http = parse_server_url("HTTP://example.org").ok();
    assert_eq!(http.map(|u| u.default_port()), Some(Some(80)));
    let https = parse_server_url("https://example.org:1").ok();
    assert_eq!(https.map(|u| u.default_port()), Some(Some(443)));
    let other = parse_server_url("ftp://example.org").ok();
    assert_eq!(other.map(|u| u.default_port()), Some(None));
}

#[test]
fn first_resolved_address_counts() {
    assert_eq!(
        url_to_socket_addr(Some(vec![Address::new("127.0.0.1", 9000), Address::new("::1", 9000)])),
        Ok(Address::new("127.0.0.1", 9000))
    );
    assert_eq!(url_to_socket_addr(Some(vec![])), Err(UrlError::Unresolved));
    assert_eq!(url_to_socket_addr(None), Err(UrlError::Unresolved));
}
