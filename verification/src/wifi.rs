//! Clients of access points that the wifi package manages.

use crate::inventory::{serving_radio, Inventory};
use crate::key::{MetricKey, WlanKey};
use crate::leases::{IpLease, IpLeases};
use crate::metric::{sent_view, Metric, MetricView};
use crate::registration::{
    caps_labels, caps_metrics, create_caps_labels, write_caps_metrics, Registration,
};
use crate::text::{
    before_at, before_at_ends_at_the_first, latin1, latin1_text, split_at_sign,
};
use vstd::prelude::*;

verus! {

/// A radio of the wifi package.
pub struct WifiRadio {
    /// The access point that the radio belongs to, as `identity@address`; absent where the radio
    /// is the device's own.
    pub cap: Option<Vec<u8>>,
}

/// The identity of the access point that a radio belongs to; empty where none is known.
pub open spec fn cap_identity(radio: Option<WifiRadio>) -> Seq<char> {
    match radio {
        Some(WifiRadio { cap: Some(cap) }) => latin1(before_at(cap@)),
        _ => Seq::empty(),
    }
}

/// The metrics of a registered client.
pub open spec fn wifi_metrics(
    radios: Map<Seq<u8>, WifiRadio>,
    interfaces: Map<Seq<u8>, Option<Vec<u8>>>,
    identity: Seq<char>,
    client: Registration,
    leases: Map<Seq<char>, IpLease>,
) -> Seq<(MetricKey, MetricView)> {
    caps_metrics(
        caps_labels(
            identity,
            cap_identity(serving_radio(radios, interfaces, client.interface@)),
            client.mac_address@,
            client.ssid@,
            "wifi"@,
            leases,
        ),
        client.bytes,
        client.packets,
        client.signal,
        client.uptime,
    )
}

/// The metrics of a registered client, in the order in which they are sent.
pub fn collect_wifi_metric(
    inventory: &Inventory<WifiRadio>,
    identity: &str,
    client: Registration,
    ip_leases: &IpLeases,
) -> (metrics: Vec<(MetricKey, Metric)>)
    requires
        inventory.wf(),
    ensures
        sent_view(metrics@) == wifi_metrics(
            inventory.radios(),
            inventory.interfaces(),
            identity@,
            client,
            ip_leases@,
        ),
        metrics@.len() == 6,
        metrics@[0].0 == MetricKey::Wlan(WlanKey::TxBytes),
        metrics@[0].1.counter == client.bytes.tx,
        metrics@[1].0 == MetricKey::Wlan(WlanKey::RxBytes),
        metrics@[1].1.counter == client.bytes.rx,
        metrics@[2].0 == MetricKey::Wlan(WlanKey::RxSignal),
        metrics@[2].1.counter == client.signal,
        metrics@[3].0 == MetricKey::Wlan(WlanKey::RxPackets),
        metrics@[3].1.counter == client.packets.rx,
        metrics@[4].0 == MetricKey::Wlan(WlanKey::TxPackets),
        metrics@[4].1.counter == client.packets.tx,
        metrics@[5].0 == MetricKey::Wlan(WlanKey::Uptime),
        metrics@[5].1.counter == client.uptime,
        forall|i: int| 0 <= i < 6 ==> (#[trigger] metrics@[i]).1.label@ == metrics@[0].1.label@,
        metrics@[0].1.label@.len() == 7,
        metrics@[0].1.label@[0].name@ == "mac_address"@,
        metrics@[0].1.label@[0].value@ == client.mac_address@,
        metrics@[0].1.label@[1].name@ == "hostname"@,
        metrics@[0].1.label@[1].value@ == identity@,
        metrics@[0].1.label@[2].name@ == "client_hostname"@,
        metrics@[0].1.label@[3].name@ == "client_ip"@,
        metrics@[0].1.label@[4].name@ == "cap_identity"@,
        metrics@[0].1.label@[5].name@ == "ssid"@,
        metrics@[0].1.label@[5].value@ == client.ssid@,
        metrics@[0].1.label@[6].name@ == "caps"@,
        metrics@[0].1.label@[6].value@ == "wifi"@,
        ip_leases@.contains_key(client.mac_address@) ==> metrics@[0].1.label@[2].value@ == ip_leases@[client.mac_address@].hostname@,
        ip_leases@.contains_key(client.mac_address@) ==> metrics@[0].1.label@[3].value@ == ip_leases@[client.mac_address@].ip@,
        !ip_leases@.contains_key(client.mac_address@) ==> metrics@[0].1.label@[2].value@.len() == 0 && metrics@[0].1.label@[3].value@.len() == 0,
        ({
            let radios = inventory.radios();
            let interfaces = inventory.interfaces();
            let master = if interfaces.contains_key(client.interface@)
                && interfaces[client.interface@] is Some {
                interfaces[client.interface@]->0@
            } else {
                client.interface@
            };
            let shown = metrics@[0].1.label@[4].value@;
            if radios.contains_key(master) && radios[master].cap is Some {
                let cap = radios[master].cap->0@;
                &&& shown.len() <= cap.len()
                &&& shown == latin1(cap.take(shown.len() as int))
                &&& !cap.take(shown.len() as int).contains(64u8)
                &&& shown.len() < cap.len() ==> cap[shown.len() as int] == 64u8
            } else {
                shown.len() == 0
            }
        }),
{
    let cap_identity = match inventory.serving_radio(client.interface.as_slice()) {
        Some(WifiRadio { cap: Some(cap) }) => latin1_text(split_at_sign(cap.as_slice())),
        _ => String::new(),
    };
    let label = create_caps_labels(
        identity,
        cap_identity.as_str(),
        client.mac_address.as_str(),
        client.ssid,
        "wifi",
        ip_leases,
    );
    write_caps_metrics(label, client.bytes, client.packets, client.signal, client.uptime)
}

/// Whatever radio serves a client, each of its figures is sent once, under the key of that figure.
pub proof fn wifi_figures_go_under_their_keys(
    radios: Map<Seq<u8>, WifiRadio>,
    interfaces: Map<Seq<u8>, Option<Vec<u8>>>,
    identity: Seq<char>,
    client: Registration,
    leases: Map<Seq<char>, IpLease>,
)
    ensures
        ({
            let metrics = wifi_metrics(radios, interfaces, identity, client, leases);
            &&& metrics.len() == 6
            &&& forall|i: int|
                0 <= i < 6 ==> match (#[trigger] metrics[i]).0 {
                    MetricKey::Wlan(WlanKey::TxBytes) => metrics[i].1.counter == client.bytes.tx,
                    MetricKey::Wlan(WlanKey::RxBytes) => metrics[i].1.counter == client.bytes.rx,
                    MetricKey::Wlan(WlanKey::TxPackets) => metrics[i].1.counter
                        == client.packets.tx,
                    MetricKey::Wlan(WlanKey::RxPackets) => metrics[i].1.counter
                        == client.packets.rx,
                    MetricKey::Wlan(WlanKey::RxSignal) => metrics[i].1.counter == client.signal,
                    MetricKey::Wlan(WlanKey::Uptime) => metrics[i].1.counter == client.uptime,
                    _ => false,
                }
            &&& forall|i: int, j: int|
                0 <= i < j < 6 ==> (#[trigger] metrics[i]).0 != (#[trigger] metrics[j]).0
        }),
{
}

/// The radio and its access point tell only where a client is: the figures, and all labels but the
/// access point's, are the same on every radio.
pub proof fn wifi_figures_do_not_depend_on_the_radio(
    radios: Map<Seq<u8>, WifiRadio>,
    others: Map<Seq<u8>, WifiRadio>,
    interfaces: Map<Seq<u8>, Option<Vec<u8>>>,
    identity: Seq<char>,
    client: Registration,
    leases: Map<Seq<char>, IpLease>,
    i: int,
    j: int,
)
    requires
        0 <= i < 6,
        0 <= j < 7,
    ensures
        ({
            let here = wifi_metrics(radios, interfaces, identity, client, leases)[i];
            let there = wifi_metrics(others, interfaces, identity, client, leases)[i];
            &&& here.0 == there.0
            &&& here.1.counter == there.1.counter
            &&& here.1.label.len() == there.1.label.len() == 7
            &&& j != 4 ==> here.1.label[j] == there.1.label[j]
        }),
{
}

/// The labels of every metric tell the client, its device and the kind of management.
pub proof fn wifi_labels_tell_the_client(
    radios: Map<Seq<u8>, WifiRadio>,
    interfaces: Map<Seq<u8>, Option<Vec<u8>>>,
    identity: Seq<char>,
    client: Registration,
    leases: Map<Seq<char>, IpLease>,
    i: int,
)
    requires
        0 <= i < 6,
    ensures
        ({
            let label = wifi_metrics(radios, interfaces, identity, client, leases)[i].1.label;
            &&& label.len() == 7
            &&& label[0].value == client.mac_address@
            &&& label[1].value == identity
            &&& label[5].value == client.ssid@
            &&& label[6].value == "wifi"@
            &&& leases.contains_key(client.mac_address@) ==> {
                &&& label[2].value == leases[client.mac_address@].hostname@
                &&& label[3].value == leases[client.mac_address@].ip@
            }
            &&& !leases.contains_key(client.mac_address@) ==> {
                &&& label[2].value.len() == 0
                &&& label[3].value.len() == 0
            }
            &&& label[4].value == cap_identity(
                serving_radio(radios, interfaces, client.interface@),
            )
        }),
{
}

/// The access point of a radio is what the radio names before the first `@`, and none where the
/// radio names none or is unknown.
pub proof fn access_point_is_named_before_the_at_sign(radio: Option<WifiRadio>)
    ensures
        radio is None ==> cap_identity(radio).len() == 0,
        radio matches Some(r) ==> match r.cap {
            Some(cap) => {
                &&& cap_identity(radio).len() <= cap@.len()
                &&& forall|j: int|
                    0 <= j < cap_identity(radio).len() ==> cap@[j] != 64u8 && #[trigger] cap_identity(
                        radio,
                    )[j] as u32 == cap@[j] as u32
                &&& cap_identity(radio).len() < cap@.len() ==> cap@[cap_identity(radio).len() as int]
                    == 64u8
            },
            None => cap_identity(radio).len() == 0,
        },
{
    if radio is Some && radio->0.cap is Some {
        let cap = radio->0.cap->0@;
        before_at_ends_at_the_first(cap);
        let head = before_at(cap);
        assert forall|j: int| 0 <= j < head.len() implies cap[j] != 64u8 by {
            assert(head[j] == cap[j]);
            assert(head.contains(head[j]));
        }
    }
}

} // verus!
