use mikrotik_exporter::collection::MetricsCollection;
use mikrotik_exporter::exposition::{encode, metrics, EncodeError};
use mikrotik_exporter::key::{HealthKey, MetricKey, PoeKey, WlanKey};
use mikrotik_exporter::metric::{
    create_label_pair, create_metric, create_metric_value, Metric, MetricFamily,
};
use mikrotik_exporter::response::{health, listen_port, respond};
use prometheus::proto::Counter;

fn counter(value: f64) -> Counter {
    let mut counter = Counter::new();
    counter.set_value(value);
    counter
}

fn metric(name: &str, value: f64) -> Metric {
    let labels = vec![create_label_pair("name", name.to_string())];
    create_metric_value(&labels, counter(value))
}

fn text(collection: MetricsCollection) -> String {
    String::from_utf8(metrics(collection).unwrap()).unwrap()
}

const ALL: [(MetricKey, &str); 14] = [
    (
        MetricKey::Wlan(WlanKey::TxBytes),
        "mikrotik_exporter_wlan_registration_tx_bytes",
    ),
    (
        MetricKey::Wlan(WlanKey::RxBytes),
        "mikrotik_exporter_wlan_registration_rx_bytes",
    ),
    (
        MetricKey::Wlan(WlanKey::TxPackets),
        "mikrotik_exporter_wlan_registration_tx_packets",
    ),
    (
        MetricKey::Wlan(WlanKey::RxPackets),
        "mikrotik_exporter_wlan_registration_rx_packets",
    ),
    (
        MetricKey::Wlan(WlanKey::RxSignal),
        "mikrotik_exporter_wlan_registration_rx_signal",
    ),
    (
        MetricKey::Wlan(WlanKey::Uptime),
        "mikrotik_exporter_wlan_registration_uptime",
    ),
    (
        MetricKey::Health(HealthKey::Temperature),
        "mikrotik_exporter_health_temperature",
    ),
    (
        MetricKey::Health(HealthKey::Voltage),
        "mikrotik_exporter_health_voltage",
    ),
    (
        MetricKey::Health(HealthKey::Current),
        "mikrotik_exporter_health_current",
    ),
    (
        MetricKey::Health(HealthKey::Power),
        "mikrotik_exporter_health_power",
    ),
    (
        MetricKey::Health(HealthKey::Rpm),
        "mikrotik_exporter_health_rpm",
    ),
    (
        MetricKey::Poe(PoeKey::Voltage),
        "mikrotik_exporter_ethernet_poe_out_voltage",
    ),
    (
        MetricKey::Poe(PoeKey::Current),
        "mikrotik_exporter_ethernet_poe_out_current",
    ),
    (
        MetricKey::Poe(PoeKey::Power),
        "mikrotik_exporter_ethernet_poe_out_power",
    ),
];

#[test]
fn empty_scrape_gives_no_text() {
    assert_eq!(metrics(MetricsCollection::default()), Ok(vec![]));
}

#[test]
fn one_metric_is_written_in_the_text_format() {
    let mut collection = MetricsCollection::default();
    collection.push(MetricKey::Health(HealthKey::Temperature), metric("cpu", 42.5));
    assert_eq!(
        text(collection),
        "# TYPE mikrotik_exporter_health_temperature counter\n\
         mikrotik_exporter_health_temperature{name=\"cpu\"} 42.5\n"
    );
}

#[test]
fn families_come_in_their_fixed_order_under_their_names() {
    let mut collection = MetricsCollection::default();
    for (i, (key, _)) in ALL.iter().enumerate().rev() {
        collection.push(*key, metric("x", i as f64));
    }
    let mut expected = String::new();
    for (i, (_, name)) in ALL.iter().enumerate() {
        expected += &format!("# TYPE {name} counter\n{name}{{name=\"x\"}} {i}\n");
    }
    assert_eq!(text(collection), expected);
}

#[test]
fn every_key_fills_only_its_own_family() {
    for (key, name) in ALL {
        let mut collection = MetricsCollection::default();
        collection.push(key, metric("x", 1.0));
        let families = collection.collect();
        assert_eq!(families.len(), 1);
        assert_eq!(families[0].name, name);
        assert_eq!(families[0].metric.len(), 1);
    }
}

#[test]
fn metrics_of_a_family_keep_the_order_of_arrival() {
    let mut collection = MetricsCollection::default();
    let power = MetricKey::Poe(PoeKey::Power);
    assert!(collection.receive(Some(Some((power, metric("a", 1.0))))));
    assert!(collection.receive(Some(Some((
        MetricKey::Poe(PoeKey::Voltage),
        metric("v", 9.0)
    )))));
    assert!(collection.receive(Some(Some((power, metric("b", 2.0))))));
    let families = collection.collect();
    assert_eq!(families.len(), 2);
    assert_eq!(families[0].metric[0].label[0].value, "v");
    let names: Vec<&str> = families[1]
        .metric
        .iter()
        .map(|m| m.label[0].value.as_str())
        .collect();
    assert_eq!(names, ["a", "b"]);
    assert_eq!(families[1].metric[1].counter, counter(2.0));
}

#[test]
fn deadline_and_end_stop_the_scrape() {
    let mut collection = MetricsCollection::default();
    collection.push(MetricKey::Poe(PoeKey::Power), metric("a", 1.0));
    assert!(!collection.receive(Some(None)));
    assert!(!collection.receive(None));
    let families = collection.collect();
    assert_eq!(families.len(), 1);
    assert_eq!(families[0].metric.len(), 1);
}

#[test]
fn label_values_are_escaped() {
    let mut collection = MetricsCollection::default();
    collection.push(MetricKey::Health(HealthKey::Rpm), metric("a\"b\\c", 3.0));
    assert_eq!(
        text(collection),
        "# TYPE mikrotik_exporter_health_rpm counter\n\
         mikrotik_exporter_health_rpm{name=\"a\\\"b\\\\c\"} 3\n"
    );
}

#[test]
fn family_without_metrics_is_refused() {
    assert_eq!(encode(vec![create_metric("empty")]), Err(EncodeError));
}

#[test]
fn family_without_a_name_is_refused() {
    let nameless = MetricFamily {
        name: String::new(),
        metric: vec![metric("x", 1.0)],
    };
    assert_eq!(encode(vec![nameless]), Err(EncodeError));
}

#[test]
fn metrics_are_answered_with_their_text() {
    let response = respond(Ok(b"text".to_vec()));
    assert_eq!(response.status, 200);
    assert_eq!(response.content_type, "text/plain; version=0.0.4");
    assert_eq!(response.body, b"text");
}

#[test]
fn failure_is_answered_with_its_reason() {
    let response = respond(Err("missing field \u{e4}".to_string()));
    assert_eq!(response.status, 500);
    assert_eq!(response.content_type, "text/plain");
    assert_eq!(response.body, "missing field \u{e4}".as_bytes());
}

#[test]
fn health_is_ok() {
    assert_eq!(health(), "OK\n");
}

#[test]
fn port_is_configurable() {
    assert_eq!(listen_port(None), 8080);
    assert_eq!(listen_port(Some(9436)), 9436);
}
