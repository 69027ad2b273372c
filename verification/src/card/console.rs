//! The `card serve` console's foundations: loopback addresses, the
//! startup record, and the guards every request passes.
use vstd::prelude::*;

use crate::card::domain::Payload;
use crate::card::json::{json_quote, json_string};
use crate::card::error::Error;
use crate::text::{dec, push_str, push_u64, string_from, str_eq};

verus! {

/// A TCP port number.
#[derive(Debug, Clone, Copy, PartialEq, Eq, Structural, PartialOrd, Ord)]
pub struct Port(u16);

impl View for Port {
    type V = u16;

    closed spec fn view(&self) -> u16 {
        self.0
    }
}

/// The port number used when no port is supplied.
pub const DEFAULT_PORT_NUMBER: u16 = 7331;

impl Port {
    /// A port from its wire representation.
    pub fn new(port: u16) -> (r: Port)
        ensures
            r@ == port,
    {
        Port(port)
    }

    /// The port that asks the operating system to assign one.
    pub fn ephemeral() -> (r: Port)
        ensures
            r@ == 0,
    {
        Port(0)
    }

    /// The fixed port used when no port is supplied.
    pub fn default_port() -> (r: Port)
        ensures
            r@ == DEFAULT_PORT_NUMBER,
    {
        Port(DEFAULT_PORT_NUMBER)
    }

    /// The wire representation.
    pub fn get(self) -> (r: u16)
        ensures
            r == self@,
    {
        self.0
    }

    /// The port in decimal.
    pub fn text(self) -> (r: String)
        ensures
            r@ == dec(self@ as nat),
    {
        let mut s = String::new();
        push_u64(&mut s, self.0 as u64);
        s
    }
}

#[derive(Debug, Clone, Copy, PartialEq, Eq, Structural)]
enum LoopbackIp {
    V4,
    V6,
}

/// A loopback socket address.
#[derive(Debug, Clone, Copy, PartialEq, Eq, Structural)]
pub struct LoopbackAddr {
    ip: LoopbackIp,
    port: Port,
}

/// The mathematical form of a [`LoopbackAddr`].
pub struct LoopbackV {
    pub v6: bool,
    pub port: u16,
}

impl View for LoopbackAddr {
    type V = LoopbackV;

    closed spec fn view(&self) -> LoopbackV {
        LoopbackV { v6: self.ip == LoopbackIp::V6, port: self.port@ }
    }
}

/// The text of a loopback address, as `SocketAddr` displays it.
pub open spec fn loopback_text(a: LoopbackV) -> Seq<char> {
    if a.v6 {
        "[::1]:"@ + dec(a.port as nat)
    } else {
        "127.0.0.1:"@ + dec(a.port as nat)
    }
}

impl LoopbackAddr {
    /// The IPv4 loopback address at `port`.
    pub fn v4(port: Port) -> (r: LoopbackAddr)
        ensures
            !r@.v6,
            r@.port == port@,
    {
        LoopbackAddr { ip: LoopbackIp::V4, port }
    }

    /// The IPv6 loopback address at `port`.
    pub fn v6(port: Port) -> (r: LoopbackAddr)
        ensures
            r@.v6,
            r@.port == port@,
    {
        LoopbackAddr { ip: LoopbackIp::V6, port }
    }

    /// The port component.
    pub fn port(&self) -> (r: Port)
        ensures
            r@ == self@.port,
    {
        self.port
    }

    /// Whether this is the IPv6 loopback address.
    pub fn is_v6(&self) -> (r: bool)
        ensures
            r == self@.v6,
    {
        self.ip == LoopbackIp::V6
    }

    /// The address at another port, in the same family.
    pub fn with_port(&self, port: Port) -> (r: LoopbackAddr)
        ensures
            r@.v6 == self@.v6,
            r@.port == port@,
    {
        LoopbackAddr { ip: self.ip, port }
    }

    /// The address as text: `127.0.0.1:<port>` or `[::1]:<port>`.
    pub fn text(&self) -> (r: String)
        ensures
            r@ == loopback_text(self@),
    {
        let mut s = match self.ip {
            LoopbackIp::V4 => string_from("127.0.0.1:"),
            LoopbackIp::V6 => string_from("[::1]:"),
        };
        push_u64(&mut s, self.port.0 as u64);
        s
    }
}

/// The source that resolved the database path.
#[derive(Debug, Clone, Copy, PartialEq, Eq, Structural)]
pub enum ConfigSource {
    /// Explicit command-line flag.
    Flag,
    /// Environment variable.
    Env,
    /// Dot-env file.
    DotEnv,
    /// Built-in default.
    Default,
}

/// The contract spelling of a configuration source.
pub open spec fn source_text(s: ConfigSource) -> Seq<char> {
    match s {
        ConfigSource::Flag => "flag"@,
        ConfigSource::Env => "env"@,
        ConfigSource::DotEnv => "dotenv"@,
        ConfigSource::Default => "default"@,
    }
}

impl ConfigSource {
    /// The contract spelling: `flag`, `env`, `dotenv` or `default`.
    pub fn text(&self) -> (r: String)
        ensures
            r@ == source_text(*self),
    {
        match self {
            ConfigSource::Flag => string_from("flag"),
            ConfigSource::Env => string_from("env"),
            ConfigSource::DotEnv => string_from("dotenv"),
            ConfigSource::Default => string_from("default"),
        }
    }
}

/// The startup record published before serving requests.
#[derive(Debug, Clone, PartialEq, Eq)]
pub struct Startup {
    bound: LoopbackAddr,
    db_path: String,
    source: ConfigSource,
}

/// The mathematical form of a [`Startup`].
pub struct StartupV {
    pub bound: LoopbackV,
    pub db_path: Seq<char>,
    pub source: ConfigSource,
}

impl View for Startup {
    type V = StartupV;

    closed spec fn view(&self) -> StartupV {
        StartupV { bound: self.bound@, db_path: self.db_path@, source: self.source }
    }
}

/// The console URL of a bound address.
pub open spec fn url_text(a: LoopbackV) -> Seq<char> {
    "http://"@ + loopback_text(a) + "/"@
}


/// The startup line: one JSON object with the database path, the
/// configuration source and the console URL, then a newline.
pub open spec fn startup_line_text(s: StartupV) -> Seq<char> {
    "{\"db_path\":"@ + json_string(s.db_path) + ",\"source\":"@ + json_string(
        source_text(s.source),
    ) + ",\"url\":"@ + json_string(url_text(s.bound)) + "}\n"@
}

impl Startup {
    /// The startup record of a listener bound at `bound`.
    pub fn new(bound: LoopbackAddr, db_path: String, source: ConfigSource) -> (r: Startup)
        ensures
            r@.bound == bound@,
            r@.db_path == db_path@,
            r@.source == source,
    {
        Startup { bound, db_path, source }
    }

    /// The console URL: `http://<bound address>/`.
    pub fn url(&self) -> (r: String)
        ensures
            r@ == url_text(self@.bound),
    {
        let mut s = string_from("http://");
        let a = self.bound.text();
        push_str(&mut s, a.as_str());
        push_str(&mut s, "/");
        s
    }

    /// The bound loopback address.
    pub fn bound(&self) -> (r: LoopbackAddr)
        ensures
            r@ == self@.bound,
    {
        self.bound
    }

    /// The database path.
    pub fn db_path(&self) -> (r: &String)
        ensures
            r@ == self@.db_path,
    {
        &self.db_path
    }

    /// The configuration source.
    pub fn source(&self) -> (r: ConfigSource)
        ensures
            r == self@.source,
    {
        self.source
    }

    /// The line published on startup.
    pub fn wire_line(&self) -> (r: String)
        ensures
            r@ == startup_line_text(self@),
    {
        let mut s = string_from("{\"db_path\":");
        let p = json_quote(self.db_path.as_str());
        push_str(&mut s, p.as_str());
        push_str(&mut s, ",\"source\":");
        let src = self.source.text();
        let q = json_quote(src.as_str());
        push_str(&mut s, q.as_str());
        push_str(&mut s, ",\"url\":");
        let u = self.url();
        let uq = json_quote(u.as_str());
        push_str(&mut s, uq.as_str());
        push_str(&mut s, "}\n");
        s
    }
}

// ── Request guards ──────────────────────────────────────────────────────────

/// The `Host` header values a console bound at `port` answers to.
pub open spec fn accepted_hosts(port: u16) -> Seq<Seq<char>> {
    seq![
        "127.0.0.1:"@ + dec(port as nat),
        "localhost:"@ + dec(port as nat),
        "[::1]:"@ + dec(port as nat),
    ]
}

/// Whether a request's `Host` header is one the console answers to.
pub open spec fn host_ok(bound: LoopbackV, host: Option<Seq<char>>) -> bool {
    match host {
        Some(h) => accepted_hosts(bound.port).contains(h),
        None => false,
    }
}

/// The text of an optional string slice.
pub open spec fn opt_text(o: Option<&str>) -> Option<Seq<char>> {
    match o {
        Some(h) => Some(h@),
        None => None,
    }
}

/// Whether a request method is allowed: only `GET` and `HEAD` are.
pub open spec fn method_ok(method: Seq<char>) -> bool {
    method == "GET"@ || method == "HEAD"@
}

/// Whether the `Host` header (absent, or not valid text, as `None`)
/// names the bound port on a loopback name.
pub fn host_allowed(bound: LoopbackAddr, host: Option<&str>) -> (r: bool)
    ensures
        r == host_ok(bound@, opt_text(host)),
{
    match host {
        None => false,
        Some(h) => {
            let p = bound.port.text();
            let mut a = string_from("127.0.0.1:");
            push_str(&mut a, p.as_str());
            let mut b = string_from("localhost:");
            push_str(&mut b, p.as_str());
            let mut c = string_from("[::1]:");
            push_str(&mut c, p.as_str());
            let r = str_eq(a.as_str(), h) || str_eq(b.as_str(), h) || str_eq(c.as_str(), h);
            proof {
                let hs = accepted_hosts(bound@.port);
                assert(hs[0] == a@ && hs[1] == b@ && hs[2] == c@);
                if hs.contains(h@) {
                    let k = choose|k: int| 0 <= k < hs.len() && hs[k] == h@;
                    assert(k == 0 || k == 1 || k == 2);
                }
                if r {
                    if a@ == h@ {
                        assert(hs[0] == h@);
                    } else if b@ == h@ {
                        assert(hs[1] == h@);
                    } else {
                        assert(hs[2] == h@);
                    }
                }
            }
            r
        },
    }
}

/// Whether a request method is allowed.
pub fn method_allowed(method: &str) -> (r: bool)
    ensures
        r == method_ok(method@),
{
    str_eq(method, "GET") || str_eq(method, "HEAD")
}

/// What the console does with a request before routing it.
#[derive(Debug, Clone, Copy, PartialEq, Eq, Structural)]
pub enum Verdict {
    /// `421 Misdirected Request`, empty body.
    Misdirected,
    /// `405 Method Not Allowed` with `Allow: GET, HEAD`, empty body.
    MethodNotAllowed,
    /// Route the request.
    Pass,
}

/// The `Allow` header sent with a refused method.
pub const ALLOW_HEADER: &'static str = "GET, HEAD";

/// The guards in the order a request meets them: the host first, then the
/// method.
pub open spec fn verdict(bound: LoopbackV, host: Option<Seq<char>>, method: Seq<char>) -> Verdict {
    if !host_ok(bound, host) {
        Verdict::Misdirected
    } else if !method_ok(method) {
        Verdict::MethodNotAllowed
    } else {
        Verdict::Pass
    }
}

/// Decide what the console does with a request before routing it.
pub fn request_verdict(bound: LoopbackAddr, host: Option<&str>, method: &str) -> (r: Verdict)
    ensures
        r == verdict(bound@, opt_text(host), method@),
{
    if !host_allowed(bound, host) {
        Verdict::Misdirected
    } else if !method_allowed(method) {
        Verdict::MethodNotAllowed
    } else {
        Verdict::Pass
    }
}

impl Verdict {
    /// The HTTP status of a refusal; `None` for a request that passes.
    pub fn status(&self) -> (r: Option<u16>)
        ensures
            *self == Verdict::Misdirected ==> r == Some(421u16),
            *self == Verdict::MethodNotAllowed ==> r == Some(405u16),
            *self == Verdict::Pass ==> r is None,
    {
        match self {
            Verdict::Misdirected => Some(421),
            Verdict::MethodNotAllowed => Some(405),
            Verdict::Pass => None,
        }
    }
}


// ── The card page ───────────────────────────────────────────────────────────

/// What the console shows of an entry's payload besides the payload
/// itself: a one-line summary (a stage event's or decision's summary, a
/// card's title), a decision's reason, a stage event's stage.
#[derive(Debug, Clone, PartialEq, Eq)]
pub struct EntryDisplay {
    pub summary: String,
    pub reason: Option<String>,
    pub stage: Option<String>,
}

/// What the console shows of a payload.
pub fn entry_display(p: &Payload) -> (r: EntryDisplay)
    ensures
        match *p {
            Payload::CardCreatedV1(c) => r.summary@ == c.title@ && r.reason is None && r.stage is None,
            Payload::DecisionV1(d) => r.summary@ == d.summary@ && (r.reason matches Some(x) && x@ == d.reason@) && r.stage is None,
            Payload::StageEventV1(e) => r.summary@ == e@.summary && r.reason is None && (r.stage matches Some(x) && x@ == e@.stage),
        },
{
    match p {
        Payload::CardCreatedV1(c) => EntryDisplay { summary: c.title.clone(), reason: None, stage: None },
        Payload::DecisionV1(d) => EntryDisplay {
            summary: d.summary.clone(),
            reason: Some(d.reason.clone()),
            stage: None,
        },
        Payload::StageEventV1(e) => EntryDisplay {
            summary: e.summary().clone(),
            reason: None,
            stage: Some(e.stage().clone()),
        },
    }
}

/// A card page that could not be shown: its status and message.
pub open spec fn page_failure(status: u16, message: Seq<char>, r: (u16, &'static str)) -> bool {
    r.0 == status && r.1@ == message
}

/// The page of a Card whose history could not be read: a Card that does
/// not exist is not found; any other failure is the store's.
pub fn history_failure_page(e: &Error) -> (r: (u16, &'static str))
    ensures
        e is CardNotFound ==> page_failure(404, "Card not found"@, r),
        !(e is CardNotFound) ==> page_failure(500, "storage failed"@, r),
{
    match e {
        Error::CardNotFound { .. } => (404, "Card not found"),
        _ => (500, "storage failed"),
    }
}

/// The page of an inspected entry that could not be read: an entry or Card
/// that does not exist is not found; any other failure is the store's.
pub fn entry_failure_page(e: &Error) -> (r: (u16, &'static str))
    ensures
        (e is EntryNotFound || e is CardNotFound) ==> page_failure(404, "entry not found"@, r),
        !(e is EntryNotFound || e is CardNotFound) ==> page_failure(500, "storage failed"@, r),
{
    match e {
        Error::EntryNotFound { .. } | Error::CardNotFound { .. } => (404, "entry not found"),
        _ => (500, "storage failed"),
    }
}

} // verus!
