//! Configuration of a client: base URL, default headers and transport
//! settings.

use vstd::prelude::*;
use vstd::string::is_ascii;
use vstd::utf8::is_ascii_chars;
use crate::url::{join, joined_url, opt_view};

verus! {

/// A span of time, as whole seconds and the nanoseconds beyond them.
#[derive(Clone, Copy, Debug, PartialEq, Eq, Structural)]
pub struct Timeout {
    pub secs: u64,
    pub nanos: u32,
}

/// Settings handed to the transport.
#[derive(Clone, Copy, Debug, PartialEq, Eq, Structural)]
pub struct ClientSettings {
    /// HTTP/1.1 keep-alive (connection pooling).
    pub http_keep_alive: bool,
    /// TCP `NO_DELAY`.
    pub tcp_no_delay: bool,
    /// Connection timeout; `None` means none.
    pub timeout: Option<Timeout>,
    /// Connections kept open per host.
    pub max_connections_per_host: usize,
}

/// Why a header could not be added.
#[derive(Clone, Copy, Debug, PartialEq, Eq, Structural)]
pub enum ConfigError {
    /// The header name is not ASCII.
    InvalidHeaderName,
    /// The header value is not ASCII.
    InvalidHeaderValue,
}

/// Configuration of a client.
#[derive(Clone, Debug)]
pub struct Config {
    /// The base URL that request URLs are resolved against. A trailing slash
    /// is significant: without it the last path segment is dropped before
    /// joining.
    pub base_url: Option<String>,
    /// Headers applied to every request, as (lowercased name, value) pairs in
    /// the order they were added. A name may occur more than once.
    pub headers: Vec<(String, String)>,
    /// Settings for the underlying transport.
    pub client_config: ClientSettings,
}

/// ASCII lowercasing; other characters stay as they are.
pub open spec fn ascii_lower(s: Seq<char>) -> Seq<char> {
    s.map_values(|c: char| if 'A' <= c <= 'Z' { ((c as u32) + 32) as char } else { c })
}

/// The values of the headers named `name`, in the order they were added.
pub open spec fn values_of(headers: Seq<(String, String)>, name: Seq<char>) -> Seq<Seq<char>> {
    headers.filter(named(name)).map_values(value_view())
}

/// Whether a header is named `name`.
pub open spec fn named(name: Seq<char>) -> spec_fn((String, String)) -> bool {
    |h: (String, String)| h.0@ == name
}

/// The value of a header.
pub open spec fn value_view() -> spec_fn((String, String)) -> Seq<char> {
    |h: (String, String)| h.1@
}

/// Adding a header leaves the values under other names as they were and
/// puts its value last under its own name.
pub proof fn lemma_values_of_push(headers: Seq<(String, String)>, h: (String, String), name: Seq<char>)
    ensures
        values_of(headers.push(h), name) == (if h.0@ == name {
            values_of(headers, name).push(h.1@)
        } else {
            values_of(headers, name)
        }),
{
    reveal(Seq::filter);
    assert(headers.push(h).drop_last() =~= headers);
    assert(headers.push(h).last() == h);
    let kept = headers.filter(named(name));
    assert(headers.push(h).filter(named(name)) == if h.0@ == name {
        kept.push(h)
    } else {
        kept
    });
    assert(kept.push(h).map_values(value_view()) =~= kept.map_values(value_view()).push(h.1@));
}

/// The transport settings a fresh configuration starts from.
pub open spec fn default_settings() -> ClientSettings {
    ClientSettings {
        http_keep_alive: true,
        tcp_no_delay: false,
        timeout: Some(Timeout { secs: 60, nanos: 0 }),
        max_connections_per_host: 50,
    }
}

/// Relies on `http_client::Config::default`, whose source sets keep-alive on,
/// no-delay off, a 60 second timeout and 50 connections per host.
#[verifier::external_body]
fn client_defaults() -> (r: ClientSettings)
    ensures
        r == default_settings(),
{
    let c = http_client::Config::default();
    ClientSettings {
        http_keep_alive: c.http_keep_alive,
        tcp_no_delay: c.tcp_no_delay,
        timeout: c.timeout.map(|d| Timeout { secs: d.as_secs(), nanos: d.subsec_nanos() }),
        max_connections_per_host: c.max_connections_per_host,
    }
}

/// Relies on `HeaderName::from_str` (http-types): it accepts ASCII only and
/// lowercases it.
#[verifier::external_body]
fn header_name(name: &str) -> (r: Option<String>)
    ensures
        opt_view(r) == (if is_ascii_chars(name@) { Some(ascii_lower(name@)) } else { None }),
{
    name.parse::<http_types::headers::HeaderName>().ok().map(|n| n.as_str().to_string())
}

/// Relies on `ToHeaderValues::to_header_values` for `&str` (http-types): it
/// accepts ASCII only and yields the string itself as the one value.
#[verifier::external_body]
fn header_value(value: &str) -> (r: Option<String>)
    ensures
        opt_view(r) == (if is_ascii_chars(value@) { Some(value@) } else { None }),
{
    http_types::headers::ToHeaderValues::to_header_values(&value).ok().and_then(|mut vs| vs.next()).map(|v| v.as_str().to_string())
}

impl Config {
    /// An empty configuration over the default transport settings.
    pub fn new() -> (r: Config)
        ensures
            r.base_url is None,
            r.headers@ == Seq::<(String, String)>::empty(),
            r.client_config == default_settings(),
    {
        Config::from_client_config(client_defaults())
    }

    /// An empty configuration over the given transport settings.
    pub fn from_client_config(client_config: ClientSettings) -> (r: Config)
        ensures
            r.base_url is None,
            r.headers@ == Seq::<(String, String)>::empty(),
            r.client_config == client_config,
    {
        Config { base_url: None, headers: Vec::new(), client_config }
    }

    /// Sets the base URL that request URLs are resolved against.
    pub fn set_base_url(self, base: String) -> (r: Config)
        ensures
            r.base_url == Some(base),
            r.headers == self.headers,
            r.client_config == self.client_config,
    {
        let mut c = self;
        c.base_url = Some(base);
        c
    }

    /// Adds a header applied to every request. Earlier values under the same
    /// name are kept: the new value comes after them. Fails, leaving nothing
    /// changed, where the name or the value is not ASCII.
    pub fn add_header(self, name: &str, value: &str) -> (r: Result<Config, ConfigError>)
        ensures
            match r {
                Ok(c) => {
                    &&& is_ascii(name) && is_ascii(value)
                    &&& c.headers@.len() == self.headers@.len() + 1
                    &&& c.headers@.drop_last() == self.headers@
                    &&& c.headers@.last().0@ == ascii_lower(name@)
                    &&& c.headers@.last().1@ == value@
                    &&& values_of(c.headers@, ascii_lower(name@)) == values_of(
                        self.headers@,
                        ascii_lower(name@),
                    ).push(value@)
                    &&& c.base_url == self.base_url
                    &&& c.client_config == self.client_config
                },
                Err(ConfigError::InvalidHeaderName) => !is_ascii(name),
                Err(ConfigError::InvalidHeaderValue) => is_ascii(name) && !is_ascii(value),
            },
    {
        let n = match header_name(name) {
            Some(n) => n,
            None => return Err(ConfigError::InvalidHeaderName),
        };
        let v = match header_value(value) {
            Some(v) => v,
            None => return Err(ConfigError::InvalidHeaderValue),
        };
        let mut c = self;
        let ghost before = c.headers@;
        c.headers.push((n, v));
        proof {
            assert(c.headers@.drop_last() =~= before);
            lemma_values_of_push(before, (n, v), ascii_lower(name@));
        }
        Ok(c)
    }

    /// Sets HTTP/1.1 keep-alive.
    pub fn set_http_keep_alive(self, keep_alive: bool) -> (r: Config)
        ensures
            r.client_config == (ClientSettings { http_keep_alive: keep_alive, ..self.client_config }),
            r.base_url == self.base_url,
            r.headers == self.headers,
    {
        let mut c = self;
        c.client_config.http_keep_alive = keep_alive;
        c
    }

    /// Sets TCP `NO_DELAY`.
    pub fn set_tcp_no_delay(self, no_delay: bool) -> (r: Config)
        ensures
            r.client_config == (ClientSettings { tcp_no_delay: no_delay, ..self.client_config }),
            r.base_url == self.base_url,
            r.headers == self.headers,
    {
        let mut c = self;
        c.client_config.tcp_no_delay = no_delay;
        c
    }

    /// Sets the connection timeout; `None` clears it.
    pub fn set_timeout(self, timeout: Option<Timeout>) -> (r: Config)
        ensures
            r.client_config == (ClientSettings { timeout, ..self.client_config }),
            r.base_url == self.base_url,
            r.headers == self.headers,
    {
        let mut c = self;
        c.client_config.timeout = timeout;
        c
    }

    /// The transport settings.
    pub fn client_config(&self) -> (r: &ClientSettings)
        ensures
            *r == self.client_config,
    {
        &self.client_config
    }

    /// Resolves a request URL against the base URL, if one is set; without one
    /// the URL is taken as it is. `None` where the base URL does not parse or
    /// the URL cannot be resolved against it.
    pub fn resolve_url(&self, url: &str) -> (r: Option<String>)
        ensures
            opt_view(r) == match self.base_url {
                Some(base) => joined_url(base@, url@),
                None => Some(url@),
            },
    {
        match &self.base_url {
            Some(base) => join(base.as_str(), url),
            None => Some(url.to_string()),
        }
    }
}

impl Default for Config {
    fn default() -> (r: Config)
        ensures
            r.base_url is None,
            r.headers@ == Seq::<(String, String)>::empty(),
            r.client_config == default_settings(),
    {
        Config::new()
    }
}

} // verus!
