use newrelic_unofficial::app_run::AppRun;
use newrelic_unofficial::clock::Clock;
use newrelic_unofficial::collector::check_status;
use newrelic_unofficial::collector::collector_request;
use newrelic_unofficial::collector::handshake::connect_call;
use newrelic_unofficial::collector::handshake::connect_request;
use newrelic_unofficial::collector::handshake::preconnect_call;
use newrelic_unofficial::collector::handshake::preconnect_request;
use newrelic_unofficial::collector::handshake::EnvValue;
use newrelic_unofficial::collector::preconnect_host;
use newrelic_unofficial::collector::HttpRequest;
use newrelic_unofficial::collector::Request;
use newrelic_unofficial::collector::RpmError;
use newrelic_unofficial::config::Config;
use newrelic_unofficial::connect_reply::ConnectReply;
use newrelic_unofficial::connect_reply::EventHarvestConfig;
use newrelic_unofficial::connect_reply::HarvestLimits;
use newrelic_unofficial::connect_reply::PreconnectReply;
use newrelic_unofficial::domain_defs::AgentRunId;
use newrelic_unofficial::metrics::MetricTable;
use newrelic_unofficial::string_map::StringMap;
use newrelic_unofficial::string_map::StringPair;
use newrelic_unofficial::utilization::HostFacts;
use newrelic_unofficial::utilization::UtilizationData;
use std::io::Read;

const LICENSE: &str = "0123456789012345678901234567890123456789";

fn pairs(list: &[StringPair]) -> Vec<(&str, &str)> {
    list.iter()
        .map(|p| (p.key.as_str(), p.value.as_str()))
        .collect()
}

fn gunzip(body: &[u8]) -> Vec<u8> {
    let mut out = Vec::new();
    flate2::read::GzDecoder::new(body)
        .read_to_end(&mut out)
        .unwrap();
    out
}

fn limits(all: Option<u32>) -> HarvestLimits {
    HarvestLimits {
        analytic_event_data: all,
        custom_event_data: all,
        error_event_data: all,
        span_event_data: all,
    }
}

fn run_with(report_period_ms: Option<u32>, harvest_limits: HarvestLimits) -> AppRun {
    let mut headers = StringMap::new();
    headers.insert("X-Echo", "yes");
    headers.insert("X-Other", "too");
    let reply = ConnectReply {
        agent_run_id: AgentRunId("R".to_owned()),
        request_headers_map: headers,
        apdex_t: Some(500_000_000),
        event_harvest_config: EventHarvestConfig {
            report_period_ms,
            harvest_limits,
        },
    };
    let pre = PreconnectReply {
        redirect_host: "h.example.com".to_owned(),
    };
    AppRun::new(LICENSE, &pre, &reply)
}

fn fixed_headers() -> Vec<(&'static str, &'static str)> {
    vec![
        ("Content-Type", "application/octet-stream"),
        ("User-Agent", "NewRelic-Rust-Agent-Unofficial/0.1.0"),
        ("Content-Encoding", "gzip"),
    ]
}

struct TestCase {
    license: &'static str,
    override_: Option<&'static str>,
    expect: &'static str,
}

#[test]
fn test_preconnect_host_base_case() {
    let test_cases = [
        // non-region license
        TestCase {
            license: "0123456789012345678901234567890123456789",
            override_: None,
            expect: "collector.newrelic.com",
        },
        // override present
        TestCase {
            license: "0123456789012345678901234567890123456789",
            override_: Some("other-collector.newrelic.com"),
            expect: "other-collector.newrelic.com",
        },
        // four letter region
        TestCase {
            license: "eu01xx6789012345678901234567890123456789",
            override_: None,
            expect: "collector.eu01.nr-data.net",
        },
        // five letter region
        TestCase {
            license: "gov01x6789012345678901234567890123456789",
            override_: None,
            expect: "collector.gov01.nr-data.net",
        },
        // six letter region
        TestCase {
            license: "foo001x789012345678901234567890123456789",
            override_: None,
            expect: "collector.foo001.nr-data.net",
        },
    ];
    for test_case in test_cases.iter() {
        let mut config = Config::new("test", test_case.license);
        config.host = test_case.override_.map(|s| s.to_owned());
        config.validate().unwrap();
        assert_eq!(preconnect_host(&config), test_case.expect);
    }
}

#[test]
fn test_preconnect_host_region_ends_at_first_x() {
    let config = Config::new("test", "xu01xx6789012345678901234567890123456789");
    assert_eq!(preconnect_host(&config), "collector..nr-data.net");
    let config = Config::new("test", "012345678901234567890123456789012345678x");
    assert_eq!(
        preconnect_host(&config),
        "collector.012345678901234567890123456789012345678.nr-data.net"
    );
    let config = Config::new("test", "eu01xx6789012345678901234567890123456789").with_host("mine");
    assert_eq!(preconnect_host(&config), "mine");
}

#[test]
fn test_error_kinds() {
    let status = |code: u16| RpmError::StatusError {
        status: code,
        body: "b".to_owned(),
    };
    for code in [401, 409] {
        assert!(status(code).is_restart_exception());
        assert!(!status(code).is_disconnect());
        assert!(!status(code).should_save_harvest_data());
    }
    assert!(status(410).is_disconnect());
    assert!(!status(410).is_restart_exception());
    assert!(!status(410).should_save_harvest_data());
    for code in [408, 429, 500, 503] {
        assert!(status(code).should_save_harvest_data());
        assert!(!status(code).is_disconnect());
        assert!(!status(code).is_restart_exception());
    }
    for code in [400, 404, 411, 502] {
        assert!(!status(code).should_save_harvest_data());
        assert!(!status(code).is_disconnect());
        assert!(!status(code).is_restart_exception());
    }
    assert!(RpmError::Shutdown.is_disconnect());
    assert!(!RpmError::Shutdown.is_restart_exception());
    assert!(!RpmError::Shutdown.should_save_harvest_data());
    let others = [
        RpmError::HttpError("x".to_owned()),
        RpmError::PayloadTooLarge {
            method: "m".to_owned(),
            compressed_len: 2,
            max_payload_size: 1,
        },
    ];
    for error in others.iter() {
        assert!(!error.is_disconnect());
        assert!(!error.is_restart_exception());
        assert!(!error.should_save_harvest_data());
    }
}

#[test]
fn test_check_status() {
    assert_eq!(check_status(200, "a".to_owned()).unwrap(), "a");
    assert_eq!(check_status(202, "b".to_owned()).unwrap(), "b");
    for code in [0, 199, 201, 203, 204, 301, 401, 410, 500, u16::MAX] {
        match check_status(code, "body".to_owned()) {
            Err(RpmError::StatusError { status, body }) => {
                assert_eq!(status, code);
                assert_eq!(body, "body");
            }
            _ => panic!("only 200 and 202 are taken"),
        }
    }
}

#[test]
fn test_session_request() {
    let run = run_with(Some(60_000), limits(Some(1)));
    let data = b"[1,2,3]";
    let request: HttpRequest = collector_request(&run, "metric_data", data).unwrap();
    assert_eq!(
        request.url,
        "https://h.example.com/agent_listener/invoke_raw_method"
    );
    assert_eq!(
        pairs(&request.params),
        vec![
            ("license_key", LICENSE),
            ("marshal_format", "json"),
            ("method", "metric_data"),
            ("protocol_version", "17"),
            ("run_id", "R"),
        ]
    );
    let mut headers = fixed_headers();
    headers.push(("X-Echo", "yes"));
    headers.push(("X-Other", "too"));
    assert_eq!(pairs(&request.headers), headers);
    assert_eq!(request.timeout, 20_000_000_000);
    // The body is a gzip stream of the payload, not the payload.
    assert_ne!(request.body, data);
    assert_eq!(&request.body[..4], &[0x1f, 0x8b, 8, 0]);
    assert_eq!(gunzip(&request.body), data);
}

#[test]
fn test_same_payload_same_stream() {
    let run = run_with(None, limits(None));
    let data = vec![b'a'; 10_000];
    let first = collector_request(&run, "metric_data", &data).unwrap();
    let second = collector_request(&run, "metric_data", &data).unwrap();
    assert_eq!(first.body, second.body);
    assert!(first.body.len() < data.len());
}

#[test]
fn test_payload_too_large() {
    let headers = StringMap::new();
    let data = b"some payload";
    let request = |max_payload_size: usize| Request {
        method: "connect",
        host: "h",
        run_id: None,
        max_payload_size,
        license: LICENSE,
        request_headers_map: &headers,
        data,
    };
    let len = request(usize::MAX).prepare().unwrap().body.len();
    assert!(request(len).prepare().is_ok());
    match request(len - 1).prepare() {
        Err(RpmError::PayloadTooLarge {
            method,
            compressed_len,
            max_payload_size,
        }) => {
            assert_eq!(method, "connect");
            assert_eq!(compressed_len, len);
            assert_eq!(max_payload_size, len - 1);
        }
        _ => panic!("the body is one byte too long"),
    }
    // The same decision, made on a body that is handed in.
    assert!(request(3).framed(vec![1, 2, 3]).is_ok());
    assert!(matches!(
        request(3).framed(vec![1, 2, 3, 4]),
        Err(RpmError::PayloadTooLarge {
            compressed_len: 4,
            max_payload_size: 3,
            ..
        })
    ));
    let framed = request(3).framed(vec![]).unwrap();
    assert!(framed.body.is_empty());
    assert_eq!(pairs(&framed.params).len(), 4);
    assert_eq!(pairs(&framed.headers), fixed_headers());
}

#[test]
fn test_payload_over_the_collector_limit() {
    let run = run_with(None, limits(None));
    // Bytes without a pattern do not shrink.
    let mut state: u32 = 12345;
    let data: Vec<u8> = (0..1_200_000)
        .map(|_| {
            state = state.wrapping_mul(1_103_515_245).wrapping_add(12_345);
            (state >> 16) as u8
        })
        .collect();
    match collector_request(&run, "metric_data", &data) {
        Err(RpmError::PayloadTooLarge {
            method,
            compressed_len,
            max_payload_size,
        }) => {
            assert_eq!(method, "metric_data");
            assert!(compressed_len > 1_000_000);
            assert_eq!(max_payload_size, 1_000_000);
        }
        _ => panic!("the body is too long"),
    }
}

#[test]
fn test_handshake_requests() {
    let config = Config::new("app", "eu01xx6789012345678901234567890123456789");
    let first = preconnect_call(&config, b"[{}]").unwrap();
    assert_eq!(
        first.url,
        "https://collector.eu01.nr-data.net/agent_listener/invoke_raw_method"
    );
    assert_eq!(
        pairs(&first.params),
        vec![
            ("license_key", "eu01xx6789012345678901234567890123456789"),
            ("marshal_format", "json"),
            ("method", "preconnect"),
            ("protocol_version", "17"),
        ]
    );
    assert_eq!(pairs(&first.headers), fixed_headers());
    assert_eq!(gunzip(&first.body), b"[{}]");
    let reply = PreconnectReply {
        redirect_host: "redirect.example.com".to_owned(),
    };
    let second = connect_call(&config, &reply, b"[]").unwrap();
    assert_eq!(
        second.url,
        "https://redirect.example.com/agent_listener/invoke_raw_method"
    );
    assert_eq!(pairs(&second.params)[2], ("method", "connect"));
    assert_eq!(pairs(&second.params).len(), 4);
    assert_eq!(gunzip(&second.body), b"[]");
}

#[test]
fn test_handshake_payloads() {
    let pre = preconnect_request();
    assert_eq!(pre.security_policies_token, "");
    assert!(!pre.high_security);
    let config = Config::new("one;two", LICENSE)
        .with_label("env", "test")
        .with_label("team", "a")
        .with_host_display_name("shown");
    let facts = HostFacts {
        logical_processors: 8,
        total_memory_kib: 4096,
        hostname: Some("box".to_owned()),
        local_address: None,
        interfaces: vec![],
        boot_id: None,
        cgroup: None,
        kubernetes_service_host: None,
    };
    let request = connect_request(&config, 42, UtilizationData::gather(&config, &facts));
    assert_eq!(request.pid, 42);
    assert_eq!(request.language, "go");
    assert_eq!(request.agent_version, "3.8.0");
    assert_eq!(request.host, "box");
    assert_eq!(request.display_host.as_deref(), Some("shown"));
    assert_eq!(request.settings.app_name, "one;two");
    assert_eq!(request.app_name, vec!["one", "two"]);
    assert!(!request.high_security);
    let labels: Vec<(&str, &str)> = request
        .labels
        .iter()
        .map(|l| (l.label_type.as_str(), l.label_value.as_str()))
        .collect();
    assert_eq!(labels, vec![("env", "test"), ("team", "a")]);
    let environment: Vec<(&str, String)> = request
        .environment
        .iter()
        .map(|e| {
            let value = match &e.value {
                EnvValue::Text(text) => text.clone(),
                EnvValue::Number(n) => format!("#{}", n),
            };
            (e.name.as_str(), value)
        })
        .collect();
    assert_eq!(
        environment,
        vec![
            ("runtime.Compiler", "gc".to_owned()),
            ("runtime.GOARCH", "amd64".to_owned()),
            ("runtime.GOOS", "linux".to_owned()),
            ("runtime.Version", "go1.14.2".to_owned()),
            ("runtime.NumCPU", "#4".to_owned()),
        ]
    );
    assert_eq!(request.identifier, "one;two");
    assert_eq!(request.utilization.hostname, "box");
    assert!(request.metadata.is_empty());
    assert_eq!(
        request.event_harvest_config,
        EventHarvestConfig {
            report_period_ms: Some(60_000),
            harvest_limits: HarvestLimits {
                analytic_event_data: Some(10_000),
                custom_event_data: Some(10_000),
                error_event_data: Some(100),
                span_event_data: None,
            },
        }
    );
}

#[test]
fn test_app_run_periods() {
    const MINUTE: u64 = 60_000_000_000;
    // Without a report period every period is a minute.
    for all in [None, Some(5)] {
        let run = run_with(None, limits(all));
        assert_eq!(run.metrics_traces_period, MINUTE);
        assert_eq!(run.span_events_period, MINUTE);
        assert_eq!(run.custom_events_period, MINUTE);
        assert_eq!(run.txn_events_period, MINUTE);
        assert_eq!(run.error_events_period, MINUTE);
    }
    // A report period holds for the kinds of events that have a limit.
    let run = run_with(
        Some(5_000),
        HarvestLimits {
            analytic_event_data: Some(1),
            custom_event_data: None,
            error_event_data: Some(0),
            span_event_data: None,
        },
    );
    assert_eq!(run.metrics_traces_period, MINUTE);
    assert_eq!(run.txn_events_period, 5_000_000_000);
    assert_eq!(run.error_events_period, 5_000_000_000);
    assert_eq!(run.custom_events_period, MINUTE);
    assert_eq!(run.span_events_period, MINUTE);
    let run = run_with(Some(u32::MAX), limits(Some(1)));
    assert_eq!(run.txn_events_period, 4_294_967_295_000_000);
    let run = run_with(Some(0), limits(Some(1)));
    assert_eq!(run.txn_events_period, 0);
}

#[test]
fn test_app_run_fields() {
    let run = run_with(None, limits(None));
    assert_eq!(run.host, "h.example.com");
    assert_eq!(run.license, LICENSE);
    assert_eq!(run.agent_run_id.0, "R");
    assert_eq!(run.request_headers_map.get("X-Echo"), Some("yes"));
    assert_eq!(run.apdex_t, 500_000_000);
    let copy = run.clone();
    assert_eq!(copy.host, run.host);
    assert_eq!(copy.agent_run_id.0, "R");
    assert_eq!(copy.request_headers_map.len(), 2);
    assert_eq!(copy.txn_events_period, run.txn_events_period);
    // A session without a usable threshold gets one second.
    let reply = ConnectReply {
        agent_run_id: AgentRunId("R".to_owned()),
        request_headers_map: StringMap::new(),
        apdex_t: None,
        event_harvest_config: EventHarvestConfig {
            report_period_ms: None,
            harvest_limits: limits(None),
        },
    };
    let pre = PreconnectReply {
        redirect_host: "h".to_owned(),
    };
    assert_eq!(AppRun::new("", &pre, &reply).apdex_t, 1_000_000_000);
}

#[test]
fn test_metric_report_round_trip() {
    let run = run_with(None, limits(None));
    let mut table = MetricTable::new(0);
    table.add_duration("WebTransaction/Go/a", None, 1_500_000_000, 0, true);
    table.add_duration("WebTransaction/Go/a", None, 500_000_000, 0, true);
    table.add_duration("Datastore/x", Some("WebTransaction/Go/a"), 250_000_000, 125_000_000, false);
    table.add_count("Instance/Reporting", None, 1, true);
    let now = Clock {
        monotonic: 60_000_000_000,
        unix: 1_600_000_060_000_000_000,
    };
    let report = table.payload(&run.agent_run_id, now);
    let seconds = |nanos: u64| serde_json::Value::from(nanos as f64 / 1e9);
    let lines: Vec<serde_json::Value> = report
        .metrics
        .iter()
        .map(|record| {
            let mut id = serde_json::Map::new();
            id.insert(
                "name".to_owned(),
                serde_json::Value::from(record.id.name.clone()),
            );
            if let Some(scope) = &record.id.scope {
                id.insert("scope".to_owned(), serde_json::Value::from(scope.clone()));
            }
            let value = &record.value;
            serde_json::Value::Array(vec![
                serde_json::Value::Object(id),
                serde_json::Value::Array(vec![
                    serde_json::Value::from(value.count_satisfied as f64),
                    seconds(value.total_tolerated),
                    seconds(value.exclusive_failed),
                    seconds(value.min),
                    seconds(value.max),
                    serde_json::Value::from(value.sum_squares as f64 / 1e18),
                ]),
            ])
        })
        .collect();
    let payload = serde_json::Value::Array(vec![
        serde_json::Value::from(report.agent_run_id.0.clone()),
        serde_json::Value::from(report.start),
        serde_json::Value::from(report.end),
        serde_json::Value::Array(lines),
    ]);
    let data = serde_json::to_vec(&payload).unwrap();
    let request = collector_request(&run, "metric_data", &data).unwrap();
    let decoded: serde_json::Value = serde_json::from_slice(&gunzip(&request.body)).unwrap();
    assert_eq!(decoded, payload);
    assert_eq!(decoded[0], "R");
    assert_eq!(decoded[1], 1_600_000_000i64);
    assert_eq!(decoded[2], 1_600_000_060i64);
    let mut entries: Vec<(String, Option<String>, Vec<f64>)> = decoded[3]
        .as_array()
        .unwrap()
        .iter()
        .map(|line| {
            (
                line[0]["name"].as_str().unwrap().to_owned(),
                line[0]
                    .get("scope")
                    .map(|scope| scope.as_str().unwrap().to_owned()),
                line[1]
                    .as_array()
                    .unwrap()
                    .iter()
                    .map(|n| n.as_f64().unwrap())
                    .collect(),
            )
        })
        .collect();
    entries.sort_by(|a, b| a.0.cmp(&b.0));
    assert_eq!(
        entries,
        vec![
            (
                "Datastore/x".to_owned(),
                Some("WebTransaction/Go/a".to_owned()),
                vec![1.0, 0.25, 0.125, 0.25, 0.25, 0.0625]
            ),
            (
                "Instance/Reporting".to_owned(),
                None,
                vec![1.0, 0.0, 0.0, 0.0, 0.0, 0.0]
            ),
            (
                "WebTransaction/Go/a".to_owned(),
                None,
                vec![2.0, 2.0, 0.0, 0.5, 1.5, 2.5]
            ),
        ]
    );
}
