//! Configuration and the pure computations of the HTTP-to-HTTPS
//! redirector.
//!
//! The listener itself is plain I/O and lives outside the library;
//! what is verified here is the builder that carries its settings and
//! the two string computations it rests on: taking the host name out
//! of a `Host` header and assembling the `Location` value of the
//! redirect response.

use vstd::prelude::*;
use crate::token::dec_digits;
use crate::token::u128_to_dec;

verus! {

/// Configuration for the HTTP listener that redirects to HTTPS.
#[derive(Debug, Clone)]
pub struct Config<F, G> {
    pub http_port: u16,
    pub https_port: u16,
    pub url_translator: F,
    pub host_translator: G,
    pub hsts: bool,
}

/// The default URL translation: every path is sent to the root.
pub fn default_url_translator(_s: &str) -> (r: String)
    ensures
        r@ == "/"@,
{
    String::from_str("/")
}

/// The default host translation: the host name is kept as it is.
pub fn default_host_translator(s: &str) -> (r: String)
    ensures
        r@ == s@,
{
    String::from_str(s)
}

impl Config<(), ()> {
    /// The default configuration: the well-known ports, no HSTS, and
    /// the default translations.
    pub fn new() -> (c: Config<impl Fn(&str) -> String, impl Fn(&str) -> String>)
        ensures
            c.http_port == 80,
            c.https_port == 443,
            c.hsts == false,
            forall|s: &str, r: String| #[trigger] call_ensures(c.url_translator, (s,), r)
                ==> r@ == "/"@,
            forall|s: &str, r: String| #[trigger] call_ensures(c.host_translator, (s,), r)
                ==> r@ == s@,
    {
        Config {
            http_port: 80,
            https_port: 443,
            url_translator: default_url_translator,
            host_translator: default_host_translator,
            hsts: false,
        }
    }
}

impl<F, G> Config<F, G> {
    /// Set the port the HTTP listener runs on. The default is 80.
    pub fn set_http_port(self, new_port: u16) -> (c: Self)
        ensures
            c.http_port == new_port,
            c.https_port == self.https_port,
            c.url_translator == self.url_translator,
            c.host_translator == self.host_translator,
            c.hsts == self.hsts,
    {
        Config {
            http_port: new_port,
            https_port: self.https_port,
            url_translator: self.url_translator,
            host_translator: self.host_translator,
            hsts: self.hsts,
        }
    }

    /// Set the port the redirected HTTPS requests go to. The default
    /// is 443.
    pub fn set_https_port(self, new_port: u16) -> (c: Self)
        ensures
            c.http_port == self.http_port,
            c.https_port == new_port,
            c.url_translator == self.url_translator,
            c.host_translator == self.host_translator,
            c.hsts == self.hsts,
    {
        Config {
            http_port: self.http_port,
            https_port: new_port,
            url_translator: self.url_translator,
            host_translator: self.host_translator,
            hsts: self.hsts,
        }
    }

    /// Replace the URL translation.
    pub fn translate_urls<H>(self, func: H) -> (c: Config<H, G>)
        ensures
            c.http_port == self.http_port,
            c.https_port == self.https_port,
            c.url_translator == func,
            c.host_translator == self.host_translator,
            c.hsts == self.hsts,
    {
        Config {
            http_port: self.http_port,
            https_port: self.https_port,
            url_translator: func,
            host_translator: self.host_translator,
            hsts: self.hsts,
        }
    }

    /// Replace the host translation.
    pub fn translate_hosts<H>(self, func: H) -> (c: Config<F, H>)
        ensures
            c.http_port == self.http_port,
            c.https_port == self.https_port,
            c.url_translator == self.url_translator,
            c.host_translator == func,
            c.hsts == self.hsts,
    {
        Config {
            http_port: self.http_port,
            https_port: self.https_port,
            url_translator: self.url_translator,
            host_translator: func,
            hsts: self.hsts,
        }
    }

    /// Whether to send an HSTS header that forbids plain HTTP for a
    /// while. The default is not to.
    pub fn hsts(self, hsts: bool) -> (c: Self)
        ensures
            c.http_port == self.http_port,
            c.https_port == self.https_port,
            c.url_translator == self.url_translator,
            c.host_translator == self.host_translator,
            c.hsts == hsts,
    {
        Config {
            http_port: self.http_port,
            https_port: self.https_port,
            url_translator: self.url_translator,
            host_translator: self.host_translator,
            hsts,
        }
    }
}

/// The length of the part of a `Host` header value before the first
/// `':'`: the host name without any port suffix.
pub open spec fn host_prefix_len(h: Seq<char>) -> int
    decreases h.len(),
{
    if h.len() == 0 {
        0
    } else if h[0] == ':' {
        0
    } else {
        1 + host_prefix_len(h.skip(1))
    }
}

/// The host name part of a `Host` header value.
pub open spec fn spec_host_prefix(h: Seq<char>) -> Seq<char> {
    h.take(host_prefix_len(h))
}

/// Any position with no `':'` before it and a `':'` (or the end) at it
/// is the prefix length.
proof fn lemma_host_prefix_len_is(h: Seq<char>, i: int)
    requires
        0 <= i <= h.len(),
        forall|j: int| 0 <= j < i ==> h[j] != ':',
        i < h.len() ==> h[i] == ':',
    ensures
        host_prefix_len(h) == i,
    decreases h.len(),
{
    if h.len() == 0 {
    } else if i == 0 {
    } else {
        assert(h[0] != ':');
        lemma_host_prefix_len_is(h.skip(1), i - 1);
    }
}

/// The host name out of a `Host` header value: everything before the
/// first `':'`, so a port suffix is dropped.
pub fn host_prefix(h: &str) -> (r: String)
    ensures
        r@ == spec_host_prefix(h@),
{
    let n = h.unicode_len();
    let mut i: usize = 0;
    while i < n && h.get_char(i) != ':'
        invariant
            0 <= i as int <= n as int,
            n as int == h@.len(),
            forall|j: int| 0 <= j < i as int ==> h@[j] != ':',
        decreases n as int - i as int,
    {
        i = i + 1;
    }
    proof {
        lemma_host_prefix_len_is(h@, i as int);
    }
    let p = h.substring_char(0, i);
    p.to_owned()
}

/// The `Location` value of the redirect: the HTTPS scheme, the
/// translated host, the port when it is not the default one, and the
/// translated path.
pub open spec fn spec_location(host: Seq<char>, https_port: u16, path: Seq<char>) -> Seq<char> {
    if https_port == 443 {
        "https://"@ + host + path
    } else {
        "https://"@ + host + ":"@ + dec_digits(https_port as nat) + path
    }
}

/// Assemble the `Location` value for a redirect response.
pub fn location_for(host: &str, https_port: u16, path: &str) -> (r: String)
    ensures
        r@ == spec_location(host@, https_port, path@),
{
    let mut r = String::from_str("https://");
    r.append(host);
    if https_port != 443 {
        r.append(":");
        let port = u128_to_dec(https_port as u128);
        r.append(port.as_str());
    }
    r.append(path);
    proof {
        assert(r@ =~= spec_location(host@, https_port, path@));
    }
    r
}

/// The fixed value of the `Strict-Transport-Security` header the
/// redirector may add.
pub fn hsts_value() -> (r: &'static str)
    ensures
        r@ == "max-age=2592000"@,
{
    "max-age=2592000"
}

} // verus!
