use mikrotik_exporter::capsman::{collect_capsman_metric, CapsmanRadio};
use mikrotik_exporter::inventory::{Inventory, RadioRows};
use mikrotik_exporter::key::{MetricKey, WlanKey};
use mikrotik_exporter::leases::{collect_ip_lease, DhcpLease, IpLease, IpLeases};
use mikrotik_exporter::metric::Metric;
use mikrotik_exporter::registration::{Registration, StatsPair};
use mikrotik_exporter::table::NameTable;
use mikrotik_exporter::text::{latin1_text, same_text, split_at_sign};
use mikrotik_exporter::wifi::{collect_wifi_metric, WifiRadio};
use prometheus::proto::Counter;

fn counter(value: f64) -> Counter {
    let mut counter = Counter::new();
    counter.set_value(value);
    counter
}

fn client(interface: &str) -> Registration {
    Registration {
        interface: interface.as_bytes().to_vec(),
        mac_address: "AA:BB:CC:DD:EE:FF".to_string(),
        ssid: "home".to_string(),
        bytes: StatsPair {
            tx: counter(1.0),
            rx: counter(2.0),
        },
        packets: StatsPair {
            tx: counter(3.0),
            rx: counter(4.0),
        },
        signal: counter(-60.0),
        uptime: counter(90.5),
    }
}

fn leases() -> IpLeases {
    let mut leases = IpLeases::new();
    assert!(leases.receive(Some((
        "AA:BB:CC:DD:EE:FF".to_string(),
        IpLease {
            hostname: "phone".to_string(),
            ip: "10.0.0.7".to_string(),
        },
    ))));
    assert!(!leases.receive(None));
    leases
}

fn wifi_inventory() -> Inventory<WifiRadio> {
    let mut radios = RadioRows::new();
    radios.row(
        b"wifi1".to_vec(),
        WifiRadio {
            cap: Some(b"attic@192.168.0.2%bridge@x".to_vec()),
        },
    );
    radios.row(b"wifi2".to_vec(), WifiRadio { cap: None });
    radios.row(
        b"wifi3".to_vec(),
        WifiRadio {
            cap: Some(b"K\xFCche".to_vec()),
        },
    );
    let mut interfaces = radios.finish().unwrap();
    interfaces.row(b"wifi1".to_vec(), None);
    interfaces.row(b"guest".to_vec(), Some(b"wifi1".to_vec()));
    interfaces.finish()
}

fn labels(metric: &Metric) -> Vec<(&str, &str)> {
    metric
        .label
        .iter()
        .map(|l| (l.name.as_str(), l.value.as_str()))
        .collect()
}

fn cap_identity(inventory: &Inventory<WifiRadio>, interface: &str) -> String {
    let metrics = collect_wifi_metric(inventory, "router", client(interface), &leases());
    metrics[0].1.label[4].value.clone()
}

#[test]
fn wifi_client_gives_six_labelled_metrics() {
    let metrics = collect_wifi_metric(&wifi_inventory(), "router", client("wifi1"), &leases());
    let sent: Vec<(MetricKey, Counter)> = metrics
        .iter()
        .map(|(key, metric)| (*key, metric.counter.clone()))
        .collect();
    assert_eq!(
        sent,
        [
            (MetricKey::Wlan(WlanKey::TxBytes), counter(1.0)),
            (MetricKey::Wlan(WlanKey::RxBytes), counter(2.0)),
            (MetricKey::Wlan(WlanKey::RxSignal), counter(-60.0)),
            (MetricKey::Wlan(WlanKey::RxPackets), counter(4.0)),
            (MetricKey::Wlan(WlanKey::TxPackets), counter(3.0)),
            (MetricKey::Wlan(WlanKey::Uptime), counter(90.5)),
        ]
    );
    for (_, metric) in &metrics {
        assert_eq!(
            labels(metric),
            [
                ("mac_address", "AA:BB:CC:DD:EE:FF"),
                ("hostname", "router"),
                ("client_hostname", "phone"),
                ("client_ip", "10.0.0.7"),
                ("cap_identity", "attic"),
                ("ssid", "home"),
                ("caps", "wifi"),
            ]
        );
    }
}

#[test]
fn client_without_a_lease_has_empty_labels() {
    let metrics =
        collect_wifi_metric(&wifi_inventory(), "router", client("wifi2"), &IpLeases::new());
    assert_eq!(
        labels(&metrics[5].1),
        [
            ("mac_address", "AA:BB:CC:DD:EE:FF"),
            ("hostname", "router"),
            ("client_hostname", ""),
            ("client_ip", ""),
            ("cap_identity", ""),
            ("ssid", "home"),
            ("caps", "wifi"),
        ]
    );
}

#[test]
fn access_point_of_a_wifi_client_is_found() {
    let inventory = wifi_inventory();
    assert_eq!(cap_identity(&inventory, "wifi1"), "attic");
    assert_eq!(cap_identity(&inventory, "guest"), "attic");
    assert_eq!(cap_identity(&inventory, "wifi2"), "");
    assert_eq!(cap_identity(&inventory, "wifi3"), "K\u{fc}che");
    assert_eq!(cap_identity(&inventory, "unknown"), "");
}

#[test]
fn access_point_of_a_capsman_client_is_found() {
    let mut radios = RadioRows::new();
    radios.row(
        b"cap1".to_vec(),
        CapsmanRadio {
            remote_cap_identity: "cellar".to_string(),
        },
    );
    let mut interfaces = radios.finish().unwrap();
    interfaces.row(b"cap1-guest".to_vec(), Some(b"cap1".to_vec()));
    interfaces.row(b"cap2".to_vec(), Some(b"cap9".to_vec()));
    let inventory = interfaces.finish();
    for (interface, access_point) in [
        ("cap1", "cellar"),
        ("cap1-guest", "cellar"),
        ("cap2", ""),
        ("cap3", ""),
    ] {
        let metrics = collect_capsman_metric(&inventory, "router", client(interface), &leases());
        assert_eq!(metrics.len(), 6);
        assert_eq!(
            labels(&metrics[0].1),
            [
                ("mac_address", "AA:BB:CC:DD:EE:FF"),
                ("hostname", "router"),
                ("client_hostname", "phone"),
                ("client_ip", "10.0.0.7"),
                ("cap_identity", access_point),
                ("ssid", "home"),
                ("caps", "legacy"),
            ]
        );
    }
}

#[test]
fn device_without_radios_is_asked_for_nothing_more() {
    let radios: RadioRows<WifiRadio> = RadioRows::new();
    assert!(radios.finish().is_none());
}

#[test]
fn last_row_of_a_name_stands() {
    let mut table = NameTable::new();
    assert!(table.is_empty());
    table.insert(b"a".to_vec(), 1);
    table.insert(b"b".to_vec(), 2);
    table.insert(b"a".to_vec(), 3);
    assert!(!table.is_empty());
    assert_eq!(table.get(b"a"), Some(&3));
    assert_eq!(table.get(b"b"), Some(&2));
    assert_eq!(table.get(b"ab"), None);
}

#[test]
fn last_lease_of_a_client_stands() {
    let mut leases = leases();
    leases.receive(Some((
        "AA:BB:CC:DD:EE:FF".to_string(),
        IpLease {
            hostname: "tablet".to_string(),
            ip: "10.0.0.8".to_string(),
        },
    )));
    assert_eq!(leases.len(), 1);
    let lease = leases.get("AA:BB:CC:DD:EE:FF").unwrap();
    assert_eq!((lease.hostname.as_str(), lease.ip.as_str()), ("tablet", "10.0.0.8"));
    assert!(leases.get("00:00:00:00:00:00").is_none());
}

#[test]
fn only_named_active_leases_are_known() {
    let row = |mac: Option<&str>, host: Option<&str>| DhcpLease {
        active_mac_address: mac.map(String::from),
        host_name: host.map(String::from),
        address: "10.0.0.9".to_string(),
    };
    assert!(collect_ip_lease(row(None, Some("pc"))).is_none());
    assert!(collect_ip_lease(row(Some("AA"), None)).is_none());
    assert!(collect_ip_lease(row(None, None)).is_none());
    let (mac_address, lease) = collect_ip_lease(row(Some("AA"), Some("pc"))).unwrap();
    assert_eq!(mac_address, "AA");
    assert_eq!(lease.hostname, "pc");
    assert_eq!(lease.ip, "10.0.0.9");
}

#[test]
fn bytes_are_decoded_as_latin1() {
    assert_eq!(latin1_text(b""), "");
    assert_eq!(latin1_text(b"plain"), "plain");
    assert_eq!(latin1_text(&[0xe4, 0xff, 0x80]), "\u{e4}\u{ff}\u{80}");
}

#[test]
fn long_texts_are_decoded_whole() {
    let bytes: Vec<u8> = (0..10_000).map(|i| (i % 256) as u8).collect();
    let expected: String = bytes.iter().map(|b| *b as char).collect();
    assert_eq!(latin1_text(&bytes), expected);
}

#[test]
fn identity_ends_at_the_first_at_sign() {
    assert_eq!(split_at_sign(b"a@b@c"), b"a");
    assert_eq!(split_at_sign(b"@b"), b"");
    assert_eq!(split_at_sign(b"abc"), b"abc");
    assert_eq!(split_at_sign(b""), b"");
}

#[test]
fn texts_are_compared_whole() {
    assert!(same_text(&"W".to_string(), "W"));
    assert!(!same_text(&"W".to_string(), "w"));
    assert!(!same_text(&"RP".to_string(), "RPM"));
}
