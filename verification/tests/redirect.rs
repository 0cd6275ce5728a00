//! Tests of the redirector configuration and its string computations.

use backend::redirect::host_prefix;
use backend::redirect::hsts_value;
use backend::redirect::location_for;
use backend::redirect::Config;

#[test]
fn default_configuration() {
    let c = Config::new();
    assert_eq!(c.http_port, 80);
    assert_eq!(c.https_port, 443);
    assert!(!c.hsts);
    assert_eq!((c.url_translator)("/anything"), "/");
    assert_eq!((c.host_translator)("example.com"), "example.com");
}

#[test]
fn builders_update_their_own_setting() {
    let c = Config::new()
        .set_http_port(8080)
        .set_https_port(4443)
        .hsts(true);
    assert_eq!(c.http_port, 8080);
    assert_eq!(c.https_port, 4443);
    assert!(c.hsts);
}

#[test]
fn translators_can_be_replaced() {
    let c = Config::new()
        .translate_urls(|_u: &str| "/landing".to_string())
        .translate_hosts(|h: &str| format!("www.{}", h));
    assert_eq!((c.url_translator)("/old"), "/landing");
    assert_eq!((c.host_translator)("example.com"), "www.example.com");
    assert_eq!(c.http_port, 80);
    assert_eq!(c.https_port, 443);
}

#[test]
fn host_prefix_drops_the_port_suffix() {
    assert_eq!(host_prefix("example.com:8080"), "example.com");
    assert_eq!(host_prefix("example.com"), "example.com");
    assert_eq!(host_prefix("localhost:80:90"), "localhost");
    assert_eq!(host_prefix(":8080"), "");
    assert_eq!(host_prefix(""), "");
}

#[test]
fn location_omits_the_default_port() {
    assert_eq!(
        location_for("example.com", 443, "/welcome"),
        "https://example.com/welcome"
    );
}

#[test]
fn location_names_any_other_port() {
    assert_eq!(
        location_for("example.com", 4443, "/"),
        "https://example.com:4443/"
    );
    assert_eq!(
        location_for("localhost", 8443, "/a/b?c=d"),
        "https://localhost:8443/a/b?c=d"
    );
}

#[test]
fn hsts_header_value_is_fixed() {
    assert_eq!(hsts_value(), "max-age=2592000");
}
