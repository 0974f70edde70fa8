//! The handshake: `preconnect` finds the host to talk to, `connect` opens a
//! session there.

use vstd::prelude::*;
use vstd::string::StringExecFns;
use crate::collector::gzip_stream;
use crate::collector::preconnect_host;
use crate::collector::preconnect_host_of;
use crate::collector::settings::Settings;
use crate::collector::HttpRequest;
use crate::collector::Request;
use crate::collector::RequestView;
use crate::collector::RpmError;
use crate::config::clone_text;
use crate::config::Config;
use crate::config::ConfigView;
use crate::connect_reply::EventHarvestConfig;
use crate::connect_reply::HarvestLimits;
use crate::connect_reply::PreconnectReply;
use crate::limits::DEFAULT_REPORT_PERIOD_MS;
use crate::limits::MAX_CUSTOM_EVENTS;
use crate::limits::MAX_ERROR_EVENTS;
use crate::limits::MAX_PAYLOAD_SIZE;
use crate::limits::MAX_TXN_EVENTS;
use crate::string_map::StringMap;
use crate::text::split;
use crate::text::split_text;
use crate::utilization::UtilizationData;

verus! {

/// The language the agent reports. The collector knows the agent as one of
/// its own, for the sake of the wire format.
pub const LANGUAGE: &'static str = "go";

/// The agent version that is reported.
pub const AGENT_VERSION: &'static str = "3.8.0";

/// The payload of `preconnect`.
#[derive(Debug)]
pub struct PreconnectRequest {
    pub security_policies_token: String,
    pub high_security: bool,
}

/// A label as it is sent at connect.
#[derive(Debug)]
pub struct Label {
    pub label_type: String,
    pub label_value: String,
}

impl View for Label {
    type V = (Seq<char>, Seq<char>);

    open spec fn view(&self) -> (Seq<char>, Seq<char>) {
        (self.label_type@, self.label_value@)
    }
}

/// A fact about the runtime: a text or a number.
#[derive(Debug)]
pub enum EnvValue {
    Text(String),
    Number(i64),
}

/// A named fact about the runtime.
#[derive(Debug)]
pub struct EnvEntry {
    pub name: String,
    pub value: EnvValue,
}

/// The payload of `connect`.
pub struct ConnectRequest {
    pub pid: u32,
    pub language: String,
    pub agent_version: String,
    pub host: String,
    pub display_host: Option<String>,
    pub settings: Settings,
    pub app_name: Vec<String>,
    pub high_security: bool,
    pub labels: Vec<Label>,
    pub environment: Vec<EnvEntry>,
    pub identifier: String,
    pub utilization: UtilizationData,
    pub metadata: StringMap,
    pub event_harvest_config: EventHarvestConfig,
}

/// The payload of `preconnect`: no security policies, no high security.
pub fn preconnect_request() -> (request: PreconnectRequest)
    ensures
        request.security_policies_token@.len() == 0,
        !request.high_security,
{
    PreconnectRequest { security_policies_token: String::new(), high_security: false }
}

/// The harvest configuration that the agent asks for.
pub open spec fn requested_harvest_config() -> EventHarvestConfig {
    EventHarvestConfig {
        report_period_ms: Some(DEFAULT_REPORT_PERIOD_MS),
        harvest_limits: HarvestLimits {
            analytic_event_data: Some(MAX_TXN_EVENTS),
            custom_event_data: Some(MAX_CUSTOM_EVENTS),
            error_event_data: Some(MAX_ERROR_EVENTS),
            span_event_data: None,
        },
    }
}

/// Whether `entry` is the runtime fact `name` with the text `value`.
pub open spec fn is_text_fact(entry: EnvEntry, name: Seq<char>, value: Seq<char>) -> bool {
    &&& entry.name@ == name
    &&& entry.value matches EnvValue::Text(text)
    &&& text@ == value
}

/// Whether `entry` is the runtime fact `name` with the number `value`.
pub open spec fn is_number_fact(entry: EnvEntry, name: Seq<char>, value: i64) -> bool {
    entry.name@ == name && entry.value == EnvValue::Number(value)
}

/// Whether `environment` is the runtime that the agent reports.
pub open spec fn is_reported_runtime(environment: Seq<EnvEntry>) -> bool {
    &&& environment.len() == 5
    &&& is_text_fact(environment[0], "runtime.Compiler"@, "gc"@)
    &&& is_text_fact(environment[1], "runtime.GOARCH"@, "amd64"@)
    &&& is_text_fact(environment[2], "runtime.GOOS"@, "linux"@)
    &&& is_text_fact(environment[3], "runtime.Version"@, "go1.14.2"@)
    &&& is_number_fact(environment[4], "runtime.NumCPU"@, 4)
}

/// What `labels` holds, as plain text.
pub open spec fn labels_view(labels: Seq<Label>) -> Seq<(Seq<char>, Seq<char>)> {
    Seq::new(labels.len(), |i: int| labels[i]@)
}

impl ConnectRequest {
    /// Whether `self` asks for a session for the process `pid` under
    /// `config`, on the host that `utilization` describes.
    pub open spec fn asks_for(
        &self,
        config: Config,
        pid: u32,
        utilization: UtilizationData,
    ) -> bool {
        &&& self.pid == pid
        &&& self.language@ == LANGUAGE@
        &&& self.agent_version@ == AGENT_VERSION@
        &&& self.host@ == utilization.hostname@
        &&& self.display_host.deep_view() == config@.host_display_name
        &&& self.settings.describes(config@)
        &&& self.app_name.deep_view() == split(config@.app_name, ';')
        &&& !self.high_security
        &&& labels_view(self.labels@) == config@.labels
        &&& is_reported_runtime(self.environment@)
        &&& self.identifier@ == config@.app_name
        &&& self.utilization == utilization
        &&& self.metadata@.len() == 0
        &&& self.event_harvest_config == requested_harvest_config()
    }
}

/// A runtime fact with a text as its value.
fn text_fact(name: &str, value: &str) -> (entry: EnvEntry)
    ensures
        is_text_fact(entry, name@, value@),
{
    EnvEntry { name: String::from_str(name), value: EnvValue::Text(String::from_str(value)) }
}

/// The payload of `connect` for the process `pid`.
pub fn connect_request(config: &Config, pid: u32, utilization: UtilizationData) -> (request:
    ConnectRequest)
    ensures
        request.asks_for(*config, pid, utilization),
{
    let mut labels: Vec<Label> = Vec::new();
    let mut i: usize = 0;
    while i < config.labels.len()
        invariant
            i <= config.labels@.len(),
            labels_view(labels@) =~= config.labels@.take(i as int),
        decreases config.labels@.len() - i,
    {
        labels.push(
            Label {
                label_type: String::from_str(config.labels.key_at(i)),
                label_value: String::from_str(config.labels.value_at(i)),
            },
        );
        proof {
            assert(config.labels@.take(i + 1) =~= config.labels@.take(i as int).push(
                config.labels@[i as int],
            ));
        }
        i = i + 1;
    }
    assert(config.labels@.take(i as int) =~= config.labels@);
    let mut environment: Vec<EnvEntry> = Vec::new();
    environment.push(text_fact("runtime.Compiler", "gc"));
    environment.push(text_fact("runtime.GOARCH", "amd64"));
    environment.push(text_fact("runtime.GOOS", "linux"));
    environment.push(text_fact("runtime.Version", "go1.14.2"));
    environment.push(
        EnvEntry { name: String::from_str("runtime.NumCPU"), value: EnvValue::Number(4) },
    );
    ConnectRequest {
        pid,
        language: String::from_str(LANGUAGE),
        agent_version: String::from_str(AGENT_VERSION),
        host: String::from_str(utilization.hostname()),
        display_host: clone_text(&config.host_display_name),
        settings: Settings::new(config),
        app_name: split_text(config.app_name.as_str(), ';'),
        high_security: false,
        labels,
        environment,
        identifier: config.app_name.clone(),
        utilization,
        metadata: StringMap::new(),
        event_harvest_config: EventHarvestConfig {
            report_period_ms: Some(DEFAULT_REPORT_PERIOD_MS),
            harvest_limits: HarvestLimits {
                analytic_event_data: Some(MAX_TXN_EVENTS),
                custom_event_data: Some(MAX_CUSTOM_EVENTS),
                error_event_data: Some(MAX_ERROR_EVENTS),
                span_event_data: None,
            },
        },
    }
}

/// A call outside of any session: to the method `method` at `host`, under the
/// license of `config`, with the JSON text `data` as its payload.
pub open spec fn handshake_call(
    config: ConfigView,
    method: Seq<char>,
    host: Seq<char>,
    data: Seq<u8>,
) -> RequestView {
    RequestView {
        method,
        host,
        run_id: None,
        max_payload_size: MAX_PAYLOAD_SIZE,
        license: config.license,
        request_headers_map: Seq::empty(),
        data,
    }
}

/// Prepares the first request of a handshake, which carries the JSON text
/// `data`. It goes to the host that the configuration leads to.
pub fn preconnect_call(config: &Config, data: &[u8]) -> (outcome: Result<HttpRequest, RpmError>)
    ensures
        handshake_call(config@, "preconnect"@, preconnect_host_of(config@), data@).is_outcome(
            outcome,
            gzip_stream(data@),
        ),
{
    let host = preconnect_host(config);
    let no_headers = StringMap::new();
    let request = Request {
        method: "preconnect",
        host: host.as_str(),
        run_id: None,
        max_payload_size: MAX_PAYLOAD_SIZE,
        license: config.license.as_str(),
        request_headers_map: &no_headers,
        data,
    };
    request.prepare()
}

/// Prepares the second request of a handshake, which carries the JSON text
/// `data`. It goes to the host that the first answer named.
pub fn connect_call(config: &Config, reply_pre: &PreconnectReply, data: &[u8]) -> (outcome: Result<
    HttpRequest,
    RpmError,
>)
    ensures
        handshake_call(config@, "connect"@, reply_pre.redirect_host@, data@).is_outcome(
            outcome,
            gzip_stream(data@),
        ),
{
    let no_headers = StringMap::new();
    let request = Request {
        method: "connect",
        host: reply_pre.redirect_host.as_str(),
        run_id: None,
        max_payload_size: MAX_PAYLOAD_SIZE,
        license: config.license.as_str(),
        request_headers_map: &no_headers,
        data,
    };
    request.prepare()
}

} // verus!
