//! Settings of one WebSocket connection.
use vstd::prelude::*;
use crate::text::{eq_str, owned};

verus! {

#[derive(Clone, Debug)]
pub struct Config {
    pub name: String,
    pub url: String,
    pub ping_duration: u64,
    pub ping_message: String,
    pub ping_timeout: u64,
    pub reconnect_timeout: u64,
    pub use_text_ping: Option<bool>,
    pub read_buffer_size: Option<usize>,
    pub write_buffer_size: Option<usize>,
    pub max_message_size: Option<usize>,
    pub max_frame_size: Option<usize>,
    pub tcp_recv_buffer_size: Option<usize>,
    pub tcp_send_buffer_size: Option<usize>,
    pub tcp_nodelay: Option<bool>,
    pub broadcast_channel_size: Option<usize>,
}

impl Config {
    /// Whether the connection needs its own TCP socket: it does when any of
    /// the receive buffer, send buffer or no-delay options is set.
    pub fn needs_custom_socket(&self) -> (r: bool)
        ensures
            r == (self.tcp_recv_buffer_size is Some || self.tcp_send_buffer_size is Some
                || self.tcp_nodelay is Some),
    {
        self.tcp_recv_buffer_size.is_some() || self.tcp_send_buffer_size.is_some()
            || self.tcp_nodelay.is_some()
    }
}

/// The TCP port a custom socket connects to: the URL's own port, else 443
/// for `wss` and 80 for any other scheme.
pub fn connect_port(scheme: &String, port: Option<u16>) -> (r: u16)
    ensures
        r == match port {
            Some(p) => p,
            None => if scheme@ == "wss"@ { 443u16 } else { 80u16 },
        },
{
    match port {
        Some(p) => p,
        None => if eq_str(scheme, "wss") { 443 } else { 80 },
    }
}

/// What `url::Url::parse` makes of a URL: its scheme, its host (if it has
/// one) and its explicit port (none when absent or the scheme's default), or
/// nothing when the text is not an absolute URL.
pub uninterp spec fn url_parts(url: Seq<char>) -> Option<(Seq<char>, Option<Seq<char>>, Option<u16>)>;

/// The view of the parts of a URL.
pub open spec fn parts_view(parts: Option<(String, Option<String>, Option<u16>)>) -> Option<(Seq<char>, Option<Seq<char>>, Option<u16>)> {
    match parts {
        Some((s, h, p)) => Some((s@, match h { Some(x) => Some(x@), None => None }, p)),
        None => None,
    }
}

/// Calls `url::Url::parse` and reads `scheme`, `host_str` and `port` of the
/// result, named `url_parts`; on a parse error hands back the error's text,
/// of which nothing is stated.
#[verifier::external_body]
fn parse_url(url: &str) -> (r: Result<(String, Option<String>, Option<u16>), String>)
    ensures
        match r {
            Ok(parts) => url_parts(url@) == parts_view(Some(parts)),
            Err(_) => url_parts(url@) is None,
        },
{
    match url::Url::parse(url) {
        Ok(u) => {
            let host = match u.host_str() {
                Some(h) => Some(h.to_string()),
                None => None,
            };
            Ok((u.scheme().to_string(), host, u.port()))
        },
        Err(e) => Err(e.to_string()),
    }
}

/// Why a URL gives no host and port to connect a socket to.
#[derive(Debug, Clone)]
pub enum ConnectTargetError {
    /// The URL does not parse; the parser's words.
    InvalidUrl(String),
    /// The URL has no host.
    NoHost,
}

impl ConnectTargetError {
    /// The error's text: the parser's words, or `Invalid URL: no host`.
    pub fn message(&self) -> (r: String)
        ensures
            match self {
                ConnectTargetError::InvalidUrl(t) => r@ == t@,
                ConnectTargetError::NoHost => r@ == "Invalid URL: no host"@,
            },
    {
        match self {
            ConnectTargetError::InvalidUrl(t) => t.clone(),
            ConnectTargetError::NoHost => owned("Invalid URL: no host"),
        }
    }
}

/// The host and port a socket connects to for a URL whose parts are
/// `parts` (or that did not parse, with the parser's words): the host, and
/// the port as `connect_port` picks it.
pub fn target_of(parts: Result<(String, Option<String>, Option<u16>), String>) -> (r: Result<(String, u16), ConnectTargetError>)
    ensures
        match parts {
            Err(why) => r matches Err(ConnectTargetError::InvalidUrl(t)) && t@ == why@,
            Ok((_, None, _)) => r matches Err(ConnectTargetError::NoHost),
            Ok((s, Some(h), p)) => r matches Ok((hh, port)) && hh@ == h@
                && port == match p { Some(v) => v, None => if s@ == "wss"@ { 443u16 } else { 80u16 } },
        },
{
    match parts {
        Err(why) => Err(ConnectTargetError::InvalidUrl(why)),
        Ok((scheme, host, port)) => match host {
            None => Err(ConnectTargetError::NoHost),
            Some(h) => {
                let p = connect_port(&scheme, port);
                Ok((h, p))
            },
        },
    }
}

/// The host and port a custom socket connects to for `url`: refused when
/// the URL does not parse or has no host; else its host, and its explicit
/// port, or 443 for `wss` and 80 for any other scheme.
pub fn connect_target(url: &str) -> (r: Result<(String, u16), ConnectTargetError>)
    ensures
        match url_parts(url@) {
            None => r matches Err(ConnectTargetError::InvalidUrl(_)),
            Some((_, None, _)) => r matches Err(ConnectTargetError::NoHost),
            Some((s, Some(h), p)) => r matches Ok((hh, port)) && hh@ == h
                && port == match p { Some(v) => v, None => if s == "wss"@ { 443u16 } else { 80u16 } },
        },
{
    target_of(parse_url(url))
}

} // verus!
