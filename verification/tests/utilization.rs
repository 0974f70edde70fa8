use newrelic_unofficial::config::Config;
use newrelic_unofficial::utilization::boot_id;
use newrelic_unofficial::utilization::find_docker_id;
use newrelic_unofficial::utilization::has_cpu_controller;
use newrelic_unofficial::utilization::hex_digit;
use newrelic_unofficial::utilization::ip_addresses;
use newrelic_unofficial::utilization::lines;
use newrelic_unofficial::utilization::trim;
use newrelic_unofficial::utilization::whitespace;
use newrelic_unofficial::utilization::Docker;
use newrelic_unofficial::utilization::HostFacts;
use newrelic_unofficial::utilization::Interface;
use newrelic_unofficial::utilization::Kubernetes;
use newrelic_unofficial::utilization::UtilizationData;
use newrelic_unofficial::utilization::UtilizationError;
use newrelic_unofficial::utilization::Vendors;

const ID: &str = "47cbd16b77c50cbf71401c069cd2189f0e659af17d5a2daca3bddf59d8a870b2";

fn interface(name: &str, address: &str) -> Interface {
    Interface {
        name: name.to_owned(),
        address: address.to_owned(),
    }
}

fn facts() -> HostFacts {
    HostFacts {
        logical_processors: 8,
        total_memory_kib: 16 * 1024 * 1024 + 1023,
        hostname: Some("box".to_owned()),
        local_address: Some("10.0.0.2".to_owned()),
        interfaces: vec![
            interface("lo", "127.0.0.1"),
            interface("eth0", "10.0.0.2"),
            interface("eth0", "fe80::1"),
        ],
        boot_id: Some("  abc-def\n".to_owned()),
        cgroup: Some(format!("4:cpu,cpuacct:/docker/{}\n", ID)),
        kubernetes_service_host: Some("10.96.0.1".to_owned()),
    }
}

#[test]
fn test_find_docker_id() {
    assert_eq!(ID.len(), 64);
    assert_eq!(find_docker_id(ID), Some(ID));
    assert_eq!(find_docker_id(&format!("/docker/{}", ID)), Some(ID));
    assert_eq!(find_docker_id(&format!("/docker/{}.scope", ID)), Some(ID));
    assert_eq!(find_docker_id(&format!("é{}é", ID)), Some(ID));
    assert_eq!(find_docker_id(""), None);
    assert_eq!(find_docker_id("/docker/abc"), None);
    assert_eq!(find_docker_id(&ID[1..]), None);
    assert_eq!(find_docker_id(&format!("{}/{}", &ID[..32], &ID[32..])), None);
    // Capital letters are no digits.
    assert_eq!(find_docker_id(&ID.to_uppercase()), None);
    // A run is taken as far as it goes.
    let long = format!("{}0", ID);
    assert_eq!(find_docker_id(&format!("/{}/", long)), Some(long.as_str()));
    // The first run that is long enough wins.
    let other = "0".repeat(64);
    assert_eq!(
        find_docker_id(&format!("abc/{}/{}", other, ID)),
        Some(other.as_str())
    );
}

#[test]
fn test_hex_digit() {
    for c in "0123456789abcdef".chars() {
        assert!(hex_digit(c));
    }
    for c in "/:gGAF é".chars() {
        assert!(!hex_digit(c));
    }
}

#[test]
fn test_lines() {
    assert_eq!(lines(""), Vec::<String>::new());
    assert_eq!(lines("a"), vec!["a"]);
    assert_eq!(lines("a\n"), vec!["a"]);
    assert_eq!(lines("\n"), vec![""]);
    assert_eq!(lines("a\r\nb\n\nc"), vec!["a", "b", "", "c"]);
    assert_eq!(lines("a\r\n\r\n"), vec!["a", ""]);
    assert_eq!(lines("a\rb\n"), vec!["a\rb"]);
    for text in ["", "a", "a\n", "\n", "a\r\nb\n\nc", "a\r\n\r\n", "x\n\ny\r\n"] {
        let expected: Vec<String> = text.lines().map(|l| l.to_owned()).collect();
        assert_eq!(lines(text), expected);
    }
}

#[test]
fn test_cpu_controller() {
    assert!(has_cpu_controller("cpu"));
    assert!(has_cpu_controller("cpuacct,cpu"));
    assert!(has_cpu_controller("cpu,cpuacct"));
    assert!(!has_cpu_controller("cpuacct"));
    assert!(!has_cpu_controller(""));
    assert!(!has_cpu_controller("memory,cpuset"));
}

#[test]
fn test_docker_from_cgroup() {
    let listing = format!(
        "11:memory:/docker/{}\n4:cpu,cpuacct:/docker/{}\n3:cpu:/docker/{}\n",
        "1".repeat(64),
        ID,
        "2".repeat(64)
    );
    assert_eq!(Docker::from_cgroup(&listing).unwrap().id.as_deref(), Some(ID));
    // Lines with fewer than three fields, or without the controller, do not
    // count.
    let listing = format!("cpu:{}\n1:name=systemd:/docker/{}\n", ID, ID);
    assert_eq!(Docker::from_cgroup(&listing).unwrap().id, None);
    assert_eq!(Docker::from_cgroup("").unwrap().id, None);
    assert_eq!(Docker::from_cgroup("4:cpu:/\n").unwrap().id, None);
    // The identifier is looked for in the third field only.
    let listing = format!("4:cpu:/docker:{}\n", ID);
    assert_eq!(Docker::from_cgroup(&listing).unwrap().id, None);
}

#[test]
fn test_docker_id_of_wrong_length() {
    let listing = format!("4:cpu:/docker/{}0\n3:cpu:/docker/{}\n", ID, ID);
    assert_eq!(
        Docker::from_cgroup(&listing).unwrap_err(),
        UtilizationError::DockerIdLength
    );
}

#[test]
fn test_trim() {
    assert_eq!(trim(""), "");
    assert_eq!(trim(" \t\n"), "");
    assert_eq!(trim("a"), "a");
    assert_eq!(trim("  a b \r\n"), "a b");
    assert_eq!(trim("\u{a0}a\u{3000}"), "a");
    for text in ["", " ", "a", " a", "a ", " a  b ", "\u{2003}x\u{85}", "\u{200b}x"] {
        assert_eq!(trim(text), text.trim());
    }
    for code in 0..0x3100u32 {
        if let Some(c) = char::from_u32(code) {
            assert_eq!(whitespace(c), c.is_whitespace());
        }
    }
}

#[test]
fn test_boot_id() {
    assert_eq!(
        boot_id("0dbd7bbb-3e5a-4e3b-b7e6-0ea4a1bd5a4d\n").unwrap(),
        "0dbd7bbb-3e5a-4e3b-b7e6-0ea4a1bd5a4d"
    );
    assert_eq!(boot_id("").unwrap(), "");
    assert_eq!(boot_id(&"a".repeat(128)).unwrap(), "a".repeat(128));
    assert_eq!(boot_id(&format!(" {}b ", "a".repeat(128))).unwrap(), "a".repeat(128));
    assert_eq!(boot_id("é"), Err(UtilizationError::BootIdNotAscii));
    assert_eq!(
        boot_id(&format!("{}é", "a".repeat(200))),
        Err(UtilizationError::BootIdNotAscii)
    );
}

#[test]
fn test_ip_addresses() {
    let interfaces = vec![
        interface("lo", "127.0.0.1"),
        interface("eth0", "10.0.0.2"),
        interface("eth1", "10.0.1.2"),
        interface("eth0", "fe80::1"),
        interface("eth1", "10.0.0.2"),
    ];
    assert_eq!(
        ip_addresses("10.0.0.2", &interfaces),
        vec!["10.0.0.2", "fe80::1"]
    );
    assert_eq!(
        ip_addresses("10.0.1.2", &interfaces),
        vec!["10.0.1.2", "10.0.0.2"]
    );
    assert_eq!(ip_addresses("127.0.0.1", &interfaces), vec!["127.0.0.1"]);
    assert_eq!(ip_addresses("10.9.9.9", &interfaces), Vec::<String>::new());
    assert_eq!(ip_addresses("10.0.0.2", &vec![]), Vec::<String>::new());
}

#[test]
fn test_gather() {
    let config = Config::new("app", "");
    let data = UtilizationData::gather(&config, &facts());
    assert_eq!(data.metadata_version, 5);
    assert_eq!(data.logical_processors, Some(8));
    assert_eq!(data.total_ram_mib, Some(16 * 1024));
    assert_eq!(data.hostname(), "box");
    assert_eq!(data.full_hostname, "");
    assert_eq!(data.ip_address, vec!["10.0.0.2", "fe80::1"]);
    assert_eq!(data.boot_id.as_deref(), Some("abc-def"));
    assert_eq!(data.vendors.docker.as_ref().unwrap().id.as_deref(), Some(ID));
    assert_eq!(
        data.vendors
            .kubernetes
            .as_ref()
            .unwrap()
            .kubernetes_service_host,
        "10.96.0.1"
    );
    assert!(!data.vendors.is_empty());
}

#[test]
fn test_gather_with_little() {
    let mut config = Config::new("app", "");
    config.utilization.detect_docker = false;
    config.utilization.detect_kubernetes = false;
    let mut known = facts();
    known.hostname = None;
    known.local_address = None;
    known.boot_id = Some("é".to_owned());
    known.logical_processors = usize::MAX;
    let data = UtilizationData::gather(&config, &known);
    assert_eq!(data.hostname(), "unknown");
    assert!(data.ip_address.is_empty());
    assert_eq!(data.boot_id, None);
    assert_eq!(data.logical_processors, Some(i32::MAX));
    assert!(data.vendors.is_empty());
    // A listing that cannot be used leaves Docker out.
    let config = Config::new("app", "");
    known.cgroup = Some(format!("4:cpu:/docker/{}0", ID));
    known.kubernetes_service_host = None;
    let data = UtilizationData::gather(&config, &known);
    assert!(data.vendors.docker.is_none());
    assert!(data.vendors.is_empty());
    known.cgroup = None;
    assert!(UtilizationData::gather(&config, &known).vendors.is_empty());
}

#[test]
fn test_vendors() {
    let none = Vendors {
        docker: None,
        kubernetes: None,
    };
    assert!(none.is_empty());
    let docker = Vendors {
        docker: Some(Docker { id: None }),
        kubernetes: None,
    };
    assert!(!docker.is_empty());
    let kubernetes = Vendors {
        docker: None,
        kubernetes: Some(Kubernetes {
            kubernetes_service_host: String::new(),
        }),
    };
    assert!(!kubernetes.is_empty());
}
