//! Requests to the collector: how they are put together, and what its
//! answers mean for the session.

use vstd::prelude::*;
use vstd::string::StrSliceExecFns;
use vstd::string::StringExecFns;
use flate2::write::GzEncoder;
use flate2::Compression;
use std::io::Write;
use crate::app_run::AppRun;
use crate::config::Config;
use crate::config::ConfigView;
use crate::limits::COLLECTOR_TIMEOUT;
use crate::limits::MAX_PAYLOAD_SIZE;
use crate::string_map::StringMap;
use crate::string_map::StringPair;
use crate::text::find_char;
use crate::text::first_index;

pub mod handshake;
pub mod settings;

verus! {

/// The version of the collector protocol that the agent speaks.
pub const PROTOCOL_VERSION: &'static str = "17";

/// How the agent names itself to the collector.
pub const USER_AGENT: &'static str = "NewRelic-Rust-Agent-Unofficial/0.1.0";

/// The collector of licenses that name no region.
pub const DEFAULT_COLLECTOR: &'static str = "collector.newrelic.com";

/// Why a request to the collector failed.
#[derive(Debug)]
pub enum RpmError {
    /// The request did not get through, or no answer came back.
    HttpError(String),
    /// The compressed request was larger than the collector takes.
    PayloadTooLarge { method: String, compressed_len: usize, max_payload_size: usize },
    /// The collector answered with a status other than success.
    StatusError { status: u16, body: String },
    /// The agent was told to shut down while it waited.
    Shutdown,
}

impl RpmError {
    /// Whether the error ends the agent for good: the collector said it is
    /// gone, or a shutdown was asked for.
    pub open spec fn disconnects(self) -> bool {
        match self {
            RpmError::StatusError { status, .. } => status == 410,
            RpmError::Shutdown => true,
            _ => false,
        }
    }

    /// Whether the error ends the session and calls for a new handshake.
    pub open spec fn restarts(self) -> bool {
        match self {
            RpmError::StatusError { status, .. } => status == 401 || status == 409,
            _ => false,
        }
    }

    /// Whether the error is a passing one, after which the data that was not
    /// sent is still worth sending.
    pub open spec fn passing(self) -> bool {
        match self {
            RpmError::StatusError { status, .. } => status == 408 || status == 429 || status
                == 500 || status == 503,
            _ => false,
        }
    }

    /// Whether the agent is to disconnect for good.
    pub fn is_disconnect(&self) -> (yes: bool)
        ensures
            yes == self.disconnects(),
    {
        match self {
            RpmError::StatusError { status, .. } => *status == 410,
            RpmError::Shutdown => true,
            _ => false,
        }
    }

    /// Whether the session is to be given up for a new one.
    pub fn is_restart_exception(&self) -> (yes: bool)
        ensures
            yes == self.restarts(),
    {
        match self {
            RpmError::StatusError { status, .. } => *status == 401 || *status == 409,
            _ => false,
        }
    }

    /// Whether the data of the failed request should be kept for a later
    /// one.
    pub fn should_save_harvest_data(&self) -> (yes: bool)
        ensures
            yes == self.passing(),
    {
        match self {
            RpmError::StatusError { status, .. } => *status == 408 || *status == 429 || *status
                == 500 || *status == 503,
            _ => false,
        }
    }
}

/// The three kinds of `StatusError` exclude each other, and no other error is
/// of more than one kind.
pub proof fn law_error_kinds_exclusive(error: RpmError)
    ensures
        !(error.disconnects() && error.restarts()),
        !(error.disconnects() && error.passing()),
        !(error.restarts() && error.passing()),
{
}

/// The host that the handshake starts at: the one the configuration names;
/// else the collector of the region that the license begins with, which is
/// what stands before its first `x`; else the default collector.
pub open spec fn preconnect_host_of(config: ConfigView) -> Seq<char> {
    match config.host {
        Some(host) => host,
        None => {
            let x = first_index(config.license, 'x');
            if 0 <= x < config.license.len() {
                "collector."@ + config.license.take(x) + ".nr-data.net"@
            } else {
                DEFAULT_COLLECTOR@
            }
        },
    }
}

/// The host that the handshake starts at.
pub fn preconnect_host(config: &Config) -> (host: String)
    ensures
        host@ == preconnect_host_of(config@),
{
    if let Some(host) = &config.host {
        return host.clone();
    }
    let license = config.license.as_str();
    if let Some(pos) = find_char(license, 'x') {
        let mut host = String::from_str("collector.");
        host.append(license.substring_char(0, pos));
        host.append(".nr-data.net");
        return host;
    }
    String::from_str(DEFAULT_COLLECTOR)
}

/// The gzip stream that the compressor makes of `data`. It is the same stream
/// whenever and wherever it is made.
pub uninterp spec fn gzip_stream(data: Seq<u8>) -> Seq<u8>;

/// Compresses `data` with `flate2`'s `GzEncoder` at its default level: the
/// bytes are written to an encoder over an empty vector, and `finish` hands
/// the vector back. The header the encoder writes holds no time and no
/// system, so the stream depends on `data` alone.
#[verifier::external_body]
fn gzip(data: &[u8]) -> (compressed: Vec<u8>)
    ensures
        compressed@ == gzip_stream(data@),
{
    let mut stream = GzEncoder::new(Vec::<u8>::new(), Compression::default());
    stream.write_all(data).unwrap();
    stream.finish().unwrap()
}

/// A call of the collector, before it is put on the wire.
pub struct Request<'a> {
    /// The method of the collector to invoke.
    pub method: &'a str,
    pub host: &'a str,
    /// The session, once there is one.
    pub run_id: Option<&'a str>,
    /// The largest compressed body to send.
    pub max_payload_size: usize,
    pub license: &'a str,
    /// Headers that the collector wants repeated.
    pub request_headers_map: &'a StringMap,
    /// The JSON text of the payload.
    pub data: &'a [u8],
}

/// A `Request` as plain values.
pub struct RequestView {
    pub method: Seq<char>,
    pub host: Seq<char>,
    pub run_id: Option<Seq<char>>,
    pub max_payload_size: usize,
    pub license: Seq<char>,
    pub request_headers_map: Seq<(Seq<char>, Seq<char>)>,
    pub data: Seq<u8>,
}

impl<'a> View for Request<'a> {
    type V = RequestView;

    open spec fn view(&self) -> RequestView {
        RequestView {
            method: self.method@,
            host: self.host@,
            run_id: match self.run_id {
                Some(id) => Some(id@),
                None => None,
            },
            max_payload_size: self.max_payload_size,
            license: self.license@,
            request_headers_map: self.request_headers_map@,
            data: self.data@,
        }
    }
}

/// A `POST` request that is ready to be sent.
#[derive(Debug)]
pub struct HttpRequest {
    pub url: String,
    /// The query parameters, in order.
    pub params: Vec<StringPair>,
    /// The headers, in the order in which they are to be set.
    pub headers: Vec<StringPair>,
    pub body: Vec<u8>,
    /// How long to wait for the answer, in nanoseconds.
    pub timeout: u64,
}

/// What `pairs` holds, as plain text.
pub open spec fn pairs_view(pairs: Seq<StringPair>) -> Seq<(Seq<char>, Seq<char>)> {
    Seq::new(pairs.len(), |i: int| pairs[i]@)
}

/// The address that requests to `host` are posted to.
pub open spec fn url_of(host: Seq<char>) -> Seq<char> {
    "https://"@ + host + "/agent_listener/invoke_raw_method"@
}

/// The query parameters of a call of `method`.
pub open spec fn params_of(
    license: Seq<char>,
    method: Seq<char>,
    run_id: Option<Seq<char>>,
) -> Seq<(Seq<char>, Seq<char>)> {
    let fixed = seq![
        ("license_key"@, license),
        ("marshal_format"@, "json"@),
        ("method"@, method),
        ("protocol_version"@, PROTOCOL_VERSION@),
    ];
    match run_id {
        Some(id) => fixed.push(("run_id"@, id)),
        None => fixed,
    }
}

/// The headers of every request, followed by those that the collector wants
/// repeated.
pub open spec fn headers_of(echo: Seq<(Seq<char>, Seq<char>)>) -> Seq<(Seq<char>, Seq<char>)> {
    seq![
        ("Content-Type"@, "application/octet-stream"@),
        ("User-Agent"@, USER_AGENT@),
        ("Content-Encoding"@, "gzip"@),
    ] + echo
}

/// A pair of owned texts.
fn pair(key: &str, value: &str) -> (p: StringPair)
    ensures
        p@ == (key@, value@),
{
    StringPair { key: String::from_str(key), value: String::from_str(value) }
}

impl RequestView {
    /// Whether `request` is what this call looks like on the wire with
    /// `body` as its compressed payload.
    pub open spec fn is_sent_as(self, request: HttpRequest, body: Seq<u8>) -> bool {
        &&& request.url@ == url_of(self.host)
        &&& pairs_view(request.params@) == params_of(self.license, self.method, self.run_id)
        &&& pairs_view(request.headers@) == headers_of(self.request_headers_map)
        &&& request.body@ == body
        &&& request.timeout == COLLECTOR_TIMEOUT
    }

    /// Whether `error` says that `len` bytes are too many for this call.
    pub open spec fn is_too_large(self, error: RpmError, len: nat) -> bool {
        &&& error matches RpmError::PayloadTooLarge { method, compressed_len, max_payload_size }
        &&& method@ == self.method
        &&& compressed_len == len
        &&& max_payload_size == self.max_payload_size
    }

    /// What `prepare` answers for this call, given the compressed payload.
    pub open spec fn is_outcome(
        self,
        outcome: Result<HttpRequest, RpmError>,
        compressed: Seq<u8>,
    ) -> bool {
        match outcome {
            Ok(request) => compressed.len() <= self.max_payload_size && self.is_sent_as(
                request,
                compressed,
            ),
            Err(error) => compressed.len() > self.max_payload_size && self.is_too_large(
                error,
                compressed.len(),
            ),
        }
    }
}

impl<'a> Request<'a> {
    /// Puts the call on the wire with `compressed` as its body, unless that
    /// is larger than the call allows.
    pub fn framed(&self, compressed: Vec<u8>) -> (outcome: Result<HttpRequest, RpmError>)
        ensures
            self@.is_outcome(outcome, compressed@),
    {
        if compressed.len() > self.max_payload_size {
            return Err(
                RpmError::PayloadTooLarge {
                    method: String::from_str(self.method),
                    compressed_len: compressed.len(),
                    max_payload_size: self.max_payload_size,
                },
            );
        }
        let mut url = String::from_str("https://");
        url.append(self.host);
        url.append("/agent_listener/invoke_raw_method");
        let mut params: Vec<StringPair> = Vec::new();
        params.push(pair("license_key", self.license));
        params.push(pair("marshal_format", "json"));
        params.push(pair("method", self.method));
        params.push(pair("protocol_version", PROTOCOL_VERSION));
        if let Some(run_id) = self.run_id {
            params.push(pair("run_id", run_id));
        }
        assert(pairs_view(params@) =~= params_of(self@.license, self@.method, self@.run_id));
        let mut headers: Vec<StringPair> = Vec::new();
        headers.push(pair("Content-Type", "application/octet-stream"));
        headers.push(pair("User-Agent", USER_AGENT));
        headers.push(pair("Content-Encoding", "gzip"));
        let echo = self.request_headers_map;
        let mut i: usize = 0;
        while i < echo.len()
            invariant
                i <= echo@.len(),
                pairs_view(headers@) =~= headers_of(echo@.take(i as int)),
            decreases echo@.len() - i,
        {
            headers.push(pair(echo.key_at(i), echo.value_at(i)));
            proof {
                assert(headers_of(echo@.take(i + 1)) =~= headers_of(echo@.take(i as int)).push(
                    echo@[i as int],
                ));
            }
            i = i + 1;
        }
        assert(echo@.take(i as int) =~= echo@);
        Ok(HttpRequest { url, params, headers, body: compressed, timeout: COLLECTOR_TIMEOUT })
    }

    /// Compresses the payload and puts the call on the wire, unless the
    /// compressed payload is larger than the call allows.
    pub fn prepare(&self) -> (outcome: Result<HttpRequest, RpmError>)
        ensures
            self@.is_outcome(outcome, gzip_stream(self.data@)),
    {
        let compressed = gzip(self.data);
        self.framed(compressed)
    }
}

/// Whether the collector took a request that it answered with `status`.
pub open spec fn accepted(status: u16) -> bool {
    status == 200 || status == 202
}

/// Reads the answer to a request: the body of an answer that says the request
/// was taken, an error with status and body for every other answer.
pub fn check_status(status: u16, body: String) -> (outcome: Result<String, RpmError>)
    ensures
        match outcome {
            Ok(text) => accepted(status) && text == body,
            Err(error) => !accepted(status) && error == (RpmError::StatusError { status, body }),
        },
{
    if status == 200 || status == 202 {
        Ok(body)
    } else {
        Err(RpmError::StatusError { status, body })
    }
}

/// The call of `command` within the session `run`, with the JSON text `data`
/// as its payload.
pub open spec fn session_call(run: AppRun, command: Seq<char>, data: Seq<u8>) -> RequestView {
    RequestView {
        method: command,
        host: run.host@,
        run_id: Some(run.agent_run_id@),
        max_payload_size: MAX_PAYLOAD_SIZE,
        license: run.license@,
        request_headers_map: run.request_headers_map@,
        data,
    }
}

/// Prepares the request that sends `data` to the method `command` of the
/// collector within the session `run`.
pub fn collector_request(run: &AppRun, command: &str, data: &[u8]) -> (outcome: Result<
    HttpRequest,
    RpmError,
>)
    ensures
        session_call(*run, command@, data@).is_outcome(outcome, gzip_stream(data@)),
{
    let request = Request {
        method: command,
        host: run.host.as_str(),
        run_id: Some(run.agent_run_id.0.as_str()),
        max_payload_size: MAX_PAYLOAD_SIZE,
        license: run.license.as_str(),
        request_headers_map: &run.request_headers_map,
        data,
    };
    request.prepare()
}

} // verus!
