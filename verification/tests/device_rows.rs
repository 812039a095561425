use mikrotik_exporter::ethernet::{
    collect_ethernet_metric, poe_ports, InterfaceEthernet, PoeMonitor,
};
use mikrotik_exporter::health::{
    collect_health_metric, HealthOutcome, Reading, SystemHealthState,
};
use mikrotik_exporter::key::{HealthKey, MetricKey, PoeKey};
use mikrotik_exporter::scrape::{
    device_identity, first_step, next_step, note_connection, Step, COLLECT_TIMEOUT_SECS,
    DHCP_TIMEOUT_SECS,
};
use mikrotik_exporter::sentence::{log_problems, Level, LogLine, SentenceResult, TrapCategory};
use prometheus::proto::Counter;

fn counter(value: f64) -> Counter {
    let mut counter = Counter::new();
    counter.set_value(value);
    counter
}

fn read(unit: &[u8], text: &str) -> HealthOutcome {
    let state = SystemHealthState {
        name: "sensor".to_string(),
        unit: unit.to_vec(),
    };
    let reading = text
        .parse()
        .map(|value: f64| Reading {
            counter: counter(value),
            text: value.to_string(),
        })
        .map_err(|e| e.to_string());
    collect_health_metric("router", state, reading)
}

fn sent(outcome: HealthOutcome) -> (MetricKey, Vec<(String, String)>, Counter) {
    match outcome {
        HealthOutcome::Send(key, metric) => (
            key,
            metric.label.into_iter().map(|l| (l.name, l.value)).collect(),
            metric.counter,
        ),
        _ => panic!("not sent"),
    }
}

fn warned(outcome: HealthOutcome) -> String {
    match outcome {
        HealthOutcome::Warn(line) => {
            assert_eq!(line.level, Level::Warn);
            line.text
        }
        _ => panic!("no warning"),
    }
}

fn lines(lines: &[LogLine]) -> Vec<(Level, &str)> {
    lines.iter().map(|l| (l.level, l.text.as_str())).collect()
}

#[test]
fn readings_are_sorted_by_unit() {
    for (unit, key) in [
        (&b"W"[..], HealthKey::Power),
        (b"C", HealthKey::Temperature),
        (b"V", HealthKey::Voltage),
        (b"RPM", HealthKey::Rpm),
        (b"A", HealthKey::Current),
    ] {
        let (sent_under, labels, value) = sent(read(unit, "24.5"));
        assert_eq!(sent_under, MetricKey::Health(key));
        assert_eq!(
            labels,
            [
                ("hostname".to_string(), "router".to_string()),
                ("name".to_string(), "sensor".to_string()),
            ]
        );
        assert_eq!(value, counter(24.5));
    }
}

#[test]
fn states_without_a_unit_are_passed_over() {
    assert!(matches!(read(b"", "ok"), HealthOutcome::Ignore));
    assert!(matches!(read(b"", "1"), HealthOutcome::Ignore));
}

#[test]
fn unknown_units_are_warned_of() {
    assert_eq!(warned(read(b"\xB5V", "7.50")), "Unknown health state: \u{b5}V=7.5");
    assert_eq!(warned(read(b"w", "3")), "Unknown health state: w=3");
}

#[test]
fn readings_that_are_no_number_are_warned_of() {
    assert_eq!(
        warned(read(b"W", "much")),
        "Cannot parse health state: W:invalid float literal"
    );
    assert_eq!(
        warned(read(b"K", "")),
        "Cannot parse health state: K:cannot parse float from empty string"
    );
}

#[test]
fn ports_with_a_power_output_are_monitored() {
    let rows = vec![
        InterfaceEthernet {
            poe_out: Some("auto-on"),
            id: "*1",
        },
        InterfaceEthernet {
            poe_out: None,
            id: "*2",
        },
        InterfaceEthernet {
            poe_out: Some("off"),
            id: "*3",
        },
    ];
    assert_eq!(poe_ports(rows), ["*1", "*3"]);
    assert!(poe_ports(Vec::<InterfaceEthernet<u8, u8>>::new()).is_empty());
}

#[test]
fn port_readings_are_sent_as_far_as_they_are_there() {
    let metrics = collect_ethernet_metric(
        "router",
        PoeMonitor {
            name: "ether5".to_string(),
            poe_out_voltage: Some(counter(53.1)),
            poe_out_current: Some(counter(60.0)),
            poe_out_power: Some(counter(3.2)),
        },
    );
    let sent: Vec<(MetricKey, Counter)> = metrics
        .iter()
        .map(|(key, metric)| (*key, metric.counter.clone()))
        .collect();
    assert_eq!(
        sent,
        [
            (MetricKey::Poe(PoeKey::Voltage), counter(53.1)),
            (MetricKey::Poe(PoeKey::Current), counter(60.0)),
            (MetricKey::Poe(PoeKey::Power), counter(3.2)),
        ]
    );
    for (_, metric) in &metrics {
        let labels: Vec<(&str, &str)> = metric
            .label
            .iter()
            .map(|l| (l.name.as_str(), l.value.as_str()))
            .collect();
        assert_eq!(labels, [("hostname", "router"), ("interface", "ether5")]);
    }
    let partial = collect_ethernet_metric(
        "router",
        PoeMonitor {
            name: "ether6".to_string(),
            poe_out_voltage: None,
            poe_out_current: Some(counter(1.0)),
            poe_out_power: None,
        },
    );
    assert_eq!(partial.len(), 1);
    assert_eq!(partial[0].0, MetricKey::Poe(PoeKey::Current));
}

#[test]
fn rows_pass_with_their_warnings() {
    let (row, logged) = log_problems(
        "router",
        "Health",
        SentenceResult::Row {
            value: 7,
            warnings: vec!["odd".to_string(), "strange".to_string()],
        },
    );
    assert_eq!(row, Some(7));
    assert_eq!(
        lines(&logged),
        [(Level::Warn, "Warning: odd"), (Level::Warn, "Warning: strange")]
    );
}

#[test]
fn broken_rows_are_reported_and_dropped() {
    let (row, logged) = log_problems::<u8>(
        "router",
        "Health",
        SentenceResult::Error {
            errors: vec!["no name".to_string()],
            warnings: vec!["odd".to_string()],
        },
    );
    assert_eq!(row, None);
    assert_eq!(
        lines(&logged),
        [
            (Level::Warn, "Warning: odd"),
            (Level::Error, "router Health Error: no name"),
        ]
    );
}

#[test]
fn missing_features_are_no_error() {
    for (category, message, level, text) in [
        (
            None,
            &b"no such command prefix"[..],
            Level::Debug,
            "r Wifi Trap: None: no such command prefix",
        ),
        (None, b"no such command", Level::Error, "r Wifi Trap: None: no such command"),
        (
            Some(TrapCategory::MissingItemOrCommand),
            b"gone",
            Level::Debug,
            "r Wifi Trap: Some(MissingItemOrCommand): gone",
        ),
        (
            Some(TrapCategory::Other("GeneralFailure".to_string())),
            b"no such command prefix",
            Level::Error,
            "r Wifi Trap: Some(GeneralFailure): no such command prefix",
        ),
        (None, b"\xE4", Level::Error, "r Wifi Trap: None: \u{e4}"),
    ] {
        let (row, logged) = log_problems::<u8>(
            "r",
            "Wifi",
            SentenceResult::Trap {
                category,
                message: message.to_vec(),
            },
        );
        assert_eq!(row, None);
        assert_eq!(lines(&logged), [(level, text)]);
    }
}

#[test]
fn only_reachable_devices_take_part() {
    let mut devices = Vec::new();
    assert_eq!(note_connection(&mut devices, "a".to_string(), Ok::<u8, &str>(1)), None);
    assert_eq!(
        note_connection(&mut devices, "b".to_string(), Err("refused")),
        Some("refused")
    );
    assert_eq!(note_connection(&mut devices, "c".to_string(), Ok::<u8, &str>(3)), None);
    assert_eq!(devices, [(1, "a".to_string()), (3, "c".to_string())]);
}

#[test]
fn identity_defaults_to_nothing() {
    assert_eq!(
        device_identity(Ok::<_, u8>(Some("router".to_string()))),
        Ok("router".to_string())
    );
    assert_eq!(device_identity(Ok::<_, u8>(None)), Ok(String::new()));
    assert_eq!(device_identity(Err(9)), Err(9));
}

#[test]
fn device_is_asked_step_by_step() {
    let mut asked = vec![first_step()];
    while let Some(step) = next_step(asked[asked.len() - 1], true) {
        asked.push(step);
    }
    assert_eq!(asked, [Step::Capsman, Step::Wifi, Step::Health, Step::Ethernet]);
}

#[test]
fn failed_step_is_the_last() {
    for step in [Step::Capsman, Step::Wifi, Step::Health, Step::Ethernet] {
        assert_eq!(next_step(step, false), None);
    }
}

#[test]
fn leases_are_listed_well_before_the_scrape_ends() {
    assert_eq!(DHCP_TIMEOUT_SECS, 2);
    assert_eq!(COLLECT_TIMEOUT_SECS, 10);
}
