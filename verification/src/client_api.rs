//! What the desktop client exchanges with the server's management API: the
//! bodies it reads and writes, and the addresses of the endpoints.

use vstd::prelude::*;
use vstd::string::*;

use crate::text::concat2;

verus! {

/// The body of a successful management call without data.
#[derive(Debug)]
pub struct SuccessResponse {
    pub success: bool,
    pub message: Option<String>,
}

/// The body of a failed management call.
#[derive(Debug)]
pub struct ErrorResponse {
    pub error: String,
}

/// The health of one provider, as the client reads it.
#[derive(Debug)]
pub struct ProviderStatus {
    pub name: String,
    pub healthy: bool,
    pub latency_ms: Option<u64>,
    pub last_check: Option<String>,
}

/// The server status, as the client reads it.
#[derive(Debug)]
pub struct ServerStatus {
    pub uptime_secs: u64,
    pub total_requests: u64,
    pub total_tokens: u64,
    pub active_connections: u32,
    pub providers: Vec<ProviderStatus>,
}

/// A provider, as the client edits it (the client never reads API keys).
#[derive(Debug)]
pub struct Provider {
    pub name: String,
    pub provider_type: String,
    pub base_url: String,
    pub enabled: bool,
}

pub struct ProviderView {
    pub name: Seq<char>,
    pub provider_type: Seq<char>,
    pub base_url: Seq<char>,
    pub enabled: bool,
}

impl View for Provider {
    type V = ProviderView;

    open spec fn view(&self) -> ProviderView {
        ProviderView {
            name: self.name@,
            provider_type: self.provider_type@,
            base_url: self.base_url@,
            enabled: self.enabled,
        }
    }
}

/// A routing rule, as the client edits it.
#[derive(Debug)]
pub struct Route {
    pub pattern: String,
    pub provider: String,
    pub model: Option<String>,
    pub priority: u32,
}

pub struct RouteView {
    pub pattern: Seq<char>,
    pub provider: Seq<char>,
    pub model: Option<Seq<char>>,
    pub priority: u32,
}

impl View for Route {
    type V = RouteView;

    open spec fn view(&self) -> RouteView {
        RouteView {
            pattern: self.pattern@,
            provider: self.provider@,
            model: crate::model::opt_str(self.model),
            priority: self.priority,
        }
    }
}

/// A request log entry, as the client shows it.
#[derive(Debug)]
pub struct RequestLog {
    pub id: String,
    pub timestamp: String,
    pub method: String,
    pub path: String,
    pub model: String,
    pub status: u16,
    pub latency_ms: u64,
}

/// `b` is left as it is by URL encoding: the code of an ASCII letter or
/// digit, or of one of `-`, `.`, `_`, `~`.
pub open spec fn unreserved(b: u8) -> bool {
    (48 <= b && b <= 57) || (65 <= b && b <= 90) || (97 <= b && b <= 122) || b == 45 || b == 46
        || b == 95 || b == 126
}

/// The upper-case hexadecimal digit of `d`, for `0 <= d < 16`.
pub open spec fn hex_digit(d: int) -> char {
    if d < 10 {
        ((d + 48) as u8) as char
    } else {
        ((d + 55) as u8) as char
    }
}

/// The URL encoding of the bytes `b`: an unreserved byte as its ASCII
/// character, every other byte as `%` and two upper-case hexadecimal
/// digits.
pub open spec fn percent_encode(b: Seq<u8>) -> Seq<char>
    decreases b.len(),
{
    if b.len() == 0 {
        Seq::empty()
    } else {
        let c = b.last();
        percent_encode(b.drop_last()) + if unreserved(c) {
            seq![c as char]
        } else {
            seq!['%', hex_digit(c as int / 16), hex_digit(c as int % 16)]
        }
    }
}

/// `urlencoding::encode`: percent-encodes every byte of the UTF-8 text of
/// `s` except ASCII letters, digits and `-`, `.`, `_`, `~`, with upper-case
/// hexadecimal digits.
#[verifier::external_body]
fn url_encode(s: &str) -> (r: String)
    ensures
        r@ == percent_encode(vstd::utf8::encode_utf8(s@)),
{
    urlencoding::encode(s).into_owned()
}

/// The full address of the management endpoint `path` of the server at
/// `base_url`.
pub fn endpoint_url(base_url: &str, path: &str) -> (r: String)
    ensures
        r@ == base_url@ + path@,
{
    concat2(base_url, path)
}

/// The endpoint of the provider `name`; the name is not encoded.
pub fn provider_path(name: &str) -> (r: String)
    ensures
        r@ == "/api/providers/"@ + name@,
{
    concat2("/api/providers/", name)
}

/// The endpoint of the routing rule `pattern`; the pattern is URL encoded,
/// since it may hold `*`.
pub fn route_path(pattern: &str) -> (r: String)
    ensures
        r@ == "/api/routes/"@ + percent_encode(vstd::utf8::encode_utf8(pattern@)),
{
    let encoded = url_encode(pattern);
    concat2("/api/routes/", encoded.as_str())
}

} // verus!
