//! The keys under which metrics are reported.

use vstd::prelude::*;

verus! {

/// What a metric measures. Every key has a family of its own.
#[derive(Debug, Copy, Clone, PartialEq, Eq, Structural)]
pub enum MetricKey {
    Wlan(WlanKey),
    Health(HealthKey),
    Poe(PoeKey),
}

/// Figures of one wireless client.
#[derive(Debug, Copy, Clone, PartialEq, Eq, Structural)]
pub enum WlanKey {
    TxBytes,
    RxBytes,
    TxPackets,
    RxPackets,
    RxSignal,
    Uptime,
}

/// Readings of a device's sensors.
#[derive(Debug, Copy, Clone, PartialEq, Eq, Structural)]
pub enum HealthKey {
    Temperature,
    Voltage,
    Current,
    Power,
    Rpm,
}

/// Readings of an Ethernet port that feeds its peer.
#[derive(Debug, Copy, Clone, PartialEq, Eq, Structural)]
pub enum PoeKey {
    Voltage,
    Current,
    Power,
}

/// The name of the family that holds the metrics of `key`.
pub open spec fn family_name(key: MetricKey) -> Seq<char> {
    match key {
        MetricKey::Wlan(WlanKey::TxBytes) => "mikrotik_exporter_wlan_registration_tx_bytes"@,
        MetricKey::Wlan(WlanKey::RxBytes) => "mikrotik_exporter_wlan_registration_rx_bytes"@,
        MetricKey::Wlan(WlanKey::TxPackets) => "mikrotik_exporter_wlan_registration_tx_packets"@,
        MetricKey::Wlan(WlanKey::RxPackets) => "mikrotik_exporter_wlan_registration_rx_packets"@,
        MetricKey::Wlan(WlanKey::RxSignal) => "mikrotik_exporter_wlan_registration_rx_signal"@,
        MetricKey::Wlan(WlanKey::Uptime) => "mikrotik_exporter_wlan_registration_uptime"@,
        MetricKey::Health(HealthKey::Temperature) => "mikrotik_exporter_health_temperature"@,
        MetricKey::Health(HealthKey::Voltage) => "mikrotik_exporter_health_voltage"@,
        MetricKey::Health(HealthKey::Current) => "mikrotik_exporter_health_current"@,
        MetricKey::Health(HealthKey::Power) => "mikrotik_exporter_health_power"@,
        MetricKey::Health(HealthKey::Rpm) => "mikrotik_exporter_health_rpm"@,
        MetricKey::Poe(PoeKey::Voltage) => "mikrotik_exporter_ethernet_poe_out_voltage"@,
        MetricKey::Poe(PoeKey::Current) => "mikrotik_exporter_ethernet_poe_out_current"@,
        MetricKey::Poe(PoeKey::Power) => "mikrotik_exporter_ethernet_poe_out_power"@,
    }
}

/// All keys, in the order in which their families are reported.
pub open spec fn all_keys() -> Seq<MetricKey> {
    seq![
        MetricKey::Wlan(WlanKey::TxBytes),
        MetricKey::Wlan(WlanKey::RxBytes),
        MetricKey::Wlan(WlanKey::TxPackets),
        MetricKey::Wlan(WlanKey::RxPackets),
        MetricKey::Wlan(WlanKey::RxSignal),
        MetricKey::Wlan(WlanKey::Uptime),
        MetricKey::Health(HealthKey::Temperature),
        MetricKey::Health(HealthKey::Voltage),
        MetricKey::Health(HealthKey::Current),
        MetricKey::Health(HealthKey::Power),
        MetricKey::Health(HealthKey::Rpm),
        MetricKey::Poe(PoeKey::Voltage),
        MetricKey::Poe(PoeKey::Current),
        MetricKey::Poe(PoeKey::Power),
    ]
}

/// The place of `key` in [`all_keys`].
pub open spec fn key_index(key: MetricKey) -> int {
    match key {
        MetricKey::Wlan(WlanKey::TxBytes) => 0,
        MetricKey::Wlan(WlanKey::RxBytes) => 1,
        MetricKey::Wlan(WlanKey::TxPackets) => 2,
        MetricKey::Wlan(WlanKey::RxPackets) => 3,
        MetricKey::Wlan(WlanKey::RxSignal) => 4,
        MetricKey::Wlan(WlanKey::Uptime) => 5,
        MetricKey::Health(HealthKey::Temperature) => 6,
        MetricKey::Health(HealthKey::Voltage) => 7,
        MetricKey::Health(HealthKey::Current) => 8,
        MetricKey::Health(HealthKey::Power) => 9,
        MetricKey::Health(HealthKey::Rpm) => 10,
        MetricKey::Poe(PoeKey::Voltage) => 11,
        MetricKey::Poe(PoeKey::Current) => 12,
        MetricKey::Poe(PoeKey::Power) => 13,
    }
}

/// Every key is listed, at its own place and nowhere else.
pub proof fn keys_are_listed_once(key: MetricKey, i: int)
    requires
        0 <= i < all_keys().len(),
    ensures
        0 <= key_index(key) < all_keys().len(),
        all_keys()[key_index(key)] == key,
        all_keys()[i] == key <==> i == key_index(key),
{
}

/// No two keys share a family name, and no name is empty.
pub proof fn family_names_are_distinct(a: MetricKey, b: MetricKey)
    ensures
        family_name(a).len() > 0,
        family_name(a) == family_name(b) <==> a == b,
{
    reveal_strlit("mikrotik_exporter_wlan_registration_tx_bytes");
    reveal_strlit("mikrotik_exporter_wlan_registration_rx_bytes");
    reveal_strlit("mikrotik_exporter_wlan_registration_tx_packets");
    reveal_strlit("mikrotik_exporter_wlan_registration_rx_packets");
    reveal_strlit("mikrotik_exporter_wlan_registration_rx_signal");
    reveal_strlit("mikrotik_exporter_wlan_registration_uptime");
    reveal_strlit("mikrotik_exporter_health_temperature");
    reveal_strlit("mikrotik_exporter_health_voltage");
    reveal_strlit("mikrotik_exporter_health_current");
    reveal_strlit("mikrotik_exporter_health_power");
    reveal_strlit("mikrotik_exporter_health_rpm");
    reveal_strlit("mikrotik_exporter_ethernet_poe_out_voltage");
    reveal_strlit("mikrotik_exporter_ethernet_poe_out_current");
    reveal_strlit("mikrotik_exporter_ethernet_poe_out_power");
    // Names of one length differ in one of these places.
    let (x, y) = (family_name(a), family_name(b));
    if a != b {
        assert(x.len() != y.len() || x[18] != y[18] || x[25] != y[25] || x[35] != y[35] || x[36]
            != y[36]);
    }
}

/// What is measured can be told from the name: it starts with the name of the exporter, goes on
/// with the source, and ends with the figure.
pub proof fn family_names_tell_the_figure()
    ensures
        family_name(MetricKey::Wlan(WlanKey::TxBytes)) == "mikrotik_exporter_wlan_registration_tx_bytes"@,
        family_name(MetricKey::Wlan(WlanKey::RxBytes)) == "mikrotik_exporter_wlan_registration_rx_bytes"@,
        family_name(MetricKey::Wlan(WlanKey::TxPackets)) == "mikrotik_exporter_wlan_registration_tx_packets"@,
        family_name(MetricKey::Wlan(WlanKey::RxPackets)) == "mikrotik_exporter_wlan_registration_rx_packets"@,
        family_name(MetricKey::Wlan(WlanKey::RxSignal)) == "mikrotik_exporter_wlan_registration_rx_signal"@,
        family_name(MetricKey::Wlan(WlanKey::Uptime)) == "mikrotik_exporter_wlan_registration_uptime"@,
        family_name(MetricKey::Health(HealthKey::Temperature)) == "mikrotik_exporter_health_temperature"@,
        family_name(MetricKey::Health(HealthKey::Voltage)) == "mikrotik_exporter_health_voltage"@,
        family_name(MetricKey::Health(HealthKey::Current)) == "mikrotik_exporter_health_current"@,
        family_name(MetricKey::Health(HealthKey::Power)) == "mikrotik_exporter_health_power"@,
        family_name(MetricKey::Health(HealthKey::Rpm)) == "mikrotik_exporter_health_rpm"@,
        family_name(MetricKey::Poe(PoeKey::Voltage)) == "mikrotik_exporter_ethernet_poe_out_voltage"@,
        family_name(MetricKey::Poe(PoeKey::Current)) == "mikrotik_exporter_ethernet_poe_out_current"@,
        family_name(MetricKey::Poe(PoeKey::Power)) == "mikrotik_exporter_ethernet_poe_out_power"@,
{
}

} // verus!
