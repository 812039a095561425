//! The metrics of a wireless client.

use crate::key::{MetricKey, WlanKey};
use crate::leases::{IpLease, IpLeases};
use crate::metric::{
    create_label_pair, create_metric_value, labels_view, names_device, sent_view, LabelPair, LabelView, Metric,
    MetricView,
};
use prometheus::proto::Counter;
use vstd::prelude::*;

verus! {

/// What was sent to a client and received from it.
#[derive(Debug)]
pub struct StatsPair {
    pub tx: Counter,
    pub rx: Counter,
}

/// A client in the registration table of a device.
#[derive(Debug)]
pub struct Registration {
    /// The interface that the client is connected to.
    pub interface: Vec<u8>,
    pub mac_address: String,
    pub ssid: String,
    pub bytes: StatsPair,
    pub packets: StatsPair,
    pub signal: Counter,
    pub uptime: Counter,
}

/// The name that the client of a lease gave itself; empty where no lease is known.
pub open spec fn client_hostname(leases: Map<Seq<char>, IpLease>, mac_address: Seq<char>) -> Seq<
    char,
> {
    if leases.contains_key(mac_address) {
        leases[mac_address].hostname@
    } else {
        Seq::empty()
    }
}

/// The address leased to a client; empty where no lease is known.
pub open spec fn client_ip(leases: Map<Seq<char>, IpLease>, mac_address: Seq<char>) -> Seq<char> {
    if leases.contains_key(mac_address) {
        leases[mac_address].ip@
    } else {
        Seq::empty()
    }
}

/// The labels of a client's metrics.
pub open spec fn caps_labels(
    identity: Seq<char>,
    cap_identity: Seq<char>,
    mac_address: Seq<char>,
    ssid: Seq<char>,
    caps: Seq<char>,
    leases: Map<Seq<char>, IpLease>,
) -> Seq<LabelView> {
    seq![
        LabelView { name: "mac_address"@, value: mac_address },
        LabelView { name: "hostname"@, value: identity },
        LabelView { name: "client_hostname"@, value: client_hostname(leases, mac_address) },
        LabelView { name: "client_ip"@, value: client_ip(leases, mac_address) },
        LabelView { name: "cap_identity"@, value: cap_identity },
        LabelView { name: "ssid"@, value: ssid },
        LabelView { name: "caps"@, value: caps },
    ]
}

/// What the labels of a client's metrics are made of.
pub ghost struct LabelSource {
    pub identity: Seq<char>,
    pub cap_identity: Seq<char>,
    pub mac_address: Seq<char>,
    pub ssid: Seq<char>,
    pub caps: Seq<char>,
    pub leases: Map<Seq<char>, IpLease>,
}

impl LabelSource {
    pub open spec fn labels(self) -> Seq<LabelView> {
        caps_labels(
            self.identity,
            self.cap_identity,
            self.mac_address,
            self.ssid,
            self.caps,
            self.leases,
        )
    }
}

/// The labels of a client's metrics: the client, the device that reports it (`identity`), the
/// access point that serves it (`cap_identity`) and the kind of wireless management (`caps`).
pub fn create_caps_labels(
    identity: &str,
    cap_identity: &str,
    mac_address: &str,
    ssid: String,
    caps: &str,
    ip_leases: &IpLeases,
) -> (labels: Vec<LabelPair>)
    ensures
        labels_view(labels@) == caps_labels(
            identity@,
            cap_identity@,
            mac_address@,
            ssid@,
            caps@,
            ip_leases@,
        ),
        labels@.len() == 7,
        labels@[0].name@ == "mac_address"@,
        labels@[0].value@ == mac_address@,
        labels@[1].name@ == "hostname"@,
        labels@[1].value@ == identity@,
        labels@[2].name@ == "client_hostname"@,
        labels@[3].name@ == "client_ip"@,
        labels@[4].name@ == "cap_identity"@,
        labels@[4].value@ == cap_identity@,
        labels@[5].name@ == "ssid"@,
        labels@[5].value@ == ssid@,
        labels@[6].name@ == "caps"@,
        labels@[6].value@ == caps@,
        ip_leases@.contains_key(mac_address@) ==> labels@[2].value@ == ip_leases@[mac_address@].hostname@,
        ip_leases@.contains_key(mac_address@) ==> labels@[3].value@ == ip_leases@[mac_address@].ip@,
        !ip_leases@.contains_key(mac_address@) ==> labels@[2].value@.len() == 0 && labels@[3].value@.len() == 0,
{
    let client_hostname = match ip_leases.get(mac_address) {
        Some(lease) => lease.hostname.clone(),
        None => String::new(),
    };
    let client_ip = match ip_leases.get(mac_address) {
        Some(lease) => lease.ip.clone(),
        None => String::new(),
    };
    let labels = vec![
        create_label_pair("mac_address", mac_address.to_string()),
        create_label_pair("hostname", identity.to_string()),
        create_label_pair("client_hostname", client_hostname),
        create_label_pair("client_ip", client_ip),
        create_label_pair("cap_identity", cap_identity.to_string()),
        create_label_pair("ssid", ssid),
        create_label_pair("caps", caps.to_string()),
    ];
    assert(labels_view(labels@) =~= caps_labels(
        identity@,
        cap_identity@,
        mac_address@,
        ssid@,
        caps@,
        ip_leases@,
    ));
    labels
}

/// The metrics of a client, in the order in which they are sent.
pub open spec fn caps_metrics(
    label: Seq<LabelView>,
    bytes: StatsPair,
    packets: StatsPair,
    signal: Counter,
    uptime: Counter,
) -> Seq<(MetricKey, MetricView)> {
    seq![
        (MetricKey::Wlan(WlanKey::TxBytes), MetricView { label, counter: bytes.tx }),
        (MetricKey::Wlan(WlanKey::RxBytes), MetricView { label, counter: bytes.rx }),
        (MetricKey::Wlan(WlanKey::RxSignal), MetricView { label, counter: signal }),
        (MetricKey::Wlan(WlanKey::RxPackets), MetricView { label, counter: packets.rx }),
        (MetricKey::Wlan(WlanKey::TxPackets), MetricView { label, counter: packets.tx }),
        (MetricKey::Wlan(WlanKey::Uptime), MetricView { label, counter: uptime }),
    ]
}

/// The metrics of a client, all with the same labels.
pub fn write_caps_metrics(
    label: Vec<LabelPair>,
    bytes_pair: StatsPair,
    packets_pair: StatsPair,
    signal: Counter,
    uptime: Counter,
) -> (metrics: Vec<(MetricKey, Metric)>)
    ensures
        sent_view(metrics@) == caps_metrics(
            labels_view(label@),
            bytes_pair,
            packets_pair,
            signal,
            uptime,
        ),
        metrics@.len() == 6,
        metrics@[0].0 == MetricKey::Wlan(WlanKey::TxBytes),
        metrics@[0].1.counter == bytes_pair.tx,
        metrics@[1].0 == MetricKey::Wlan(WlanKey::RxBytes),
        metrics@[1].1.counter == bytes_pair.rx,
        metrics@[2].0 == MetricKey::Wlan(WlanKey::RxSignal),
        metrics@[2].1.counter == signal,
        metrics@[3].0 == MetricKey::Wlan(WlanKey::RxPackets),
        metrics@[3].1.counter == packets_pair.rx,
        metrics@[4].0 == MetricKey::Wlan(WlanKey::TxPackets),
        metrics@[4].1.counter == packets_pair.tx,
        metrics@[5].0 == MetricKey::Wlan(WlanKey::Uptime),
        metrics@[5].1.counter == uptime,
        forall|i: int| 0 <= i < 6 ==> (#[trigger] metrics@[i]).1.label@ == label@,
{
    let metrics = vec![
        (MetricKey::Wlan(WlanKey::TxBytes), create_metric_value(&label, bytes_pair.tx)),
        (MetricKey::Wlan(WlanKey::RxBytes), create_metric_value(&label, bytes_pair.rx)),
        (MetricKey::Wlan(WlanKey::RxSignal), create_metric_value(&label, signal)),
        (MetricKey::Wlan(WlanKey::RxPackets), create_metric_value(&label, packets_pair.rx)),
        (MetricKey::Wlan(WlanKey::TxPackets), create_metric_value(&label, packets_pair.tx)),
        (MetricKey::Wlan(WlanKey::Uptime), create_metric_value(&label, uptime)),
    ];
    assert(sent_view(metrics@) =~= caps_metrics(
        labels_view(label@),
        bytes_pair,
        packets_pair,
        signal,
        uptime,
    ));
    metrics
}

/// The names of the labels of a client's metrics do not depend on the client, on the device or on
/// the kind of wireless management, and no name occurs twice.
pub proof fn client_label_names_are_fixed(a: LabelSource, b: LabelSource, i: int, j: int)
    requires
        0 <= i < 7,
        0 <= j < 7,
    ensures
        a.labels().len() == 7,
        a.labels()[i].name == b.labels()[i].name,
        a.labels()[i].name == a.labels()[j].name <==> i == j,
{
    reveal_strlit("mac_address");
    reveal_strlit("hostname");
    reveal_strlit("client_hostname");
    reveal_strlit("client_ip");
    reveal_strlit("cap_identity");
    reveal_strlit("ssid");
    reveal_strlit("caps");
    let (x, y) = (a.labels()[i].name, a.labels()[j].name);
    if i != j {
        assert(x.len() != y.len() || x[0] != y[0]);
    }
}

/// A client gives one metric for each of its figures, all with the same labels.
pub proof fn client_gives_every_figure_once(
    label: Seq<LabelView>,
    bytes: StatsPair,
    packets: StatsPair,
    signal: Counter,
    uptime: Counter,
    key: WlanKey,
)
    ensures
        exists|i: int|
            0 <= i < caps_metrics(label, bytes, packets, signal, uptime).len() && (
            #[trigger] caps_metrics(label, bytes, packets, signal, uptime)[i]).0
                == MetricKey::Wlan(key),
        forall|i: int, j: int|
            0 <= i < j < caps_metrics(label, bytes, packets, signal, uptime).len() ==> (
            #[trigger] caps_metrics(label, bytes, packets, signal, uptime)[i]).0 != (
            #[trigger] caps_metrics(label, bytes, packets, signal, uptime)[j]).0,
        forall|i: int|
            0 <= i < caps_metrics(label, bytes, packets, signal, uptime).len() ==> (
            #[trigger] caps_metrics(label, bytes, packets, signal, uptime)[i]).1.label == label,
{
    let metrics = caps_metrics(label, bytes, packets, signal, uptime);
    assert(metrics[0].0 == MetricKey::Wlan(WlanKey::TxBytes));
    assert(metrics[1].0 == MetricKey::Wlan(WlanKey::RxBytes));
    assert(metrics[2].0 == MetricKey::Wlan(WlanKey::RxSignal));
    assert(metrics[3].0 == MetricKey::Wlan(WlanKey::RxPackets));
    assert(metrics[4].0 == MetricKey::Wlan(WlanKey::TxPackets));
    assert(metrics[5].0 == MetricKey::Wlan(WlanKey::Uptime));
}

/// Every metric of a client names the device that reports it.
pub proof fn client_metrics_name_their_device(source: LabelSource)
    ensures
        names_device(source.labels(), source.identity),
{
    assert(source.labels()[1] == (LabelView { name: "hostname"@, value: source.identity }));
}

/// The labels tell the client, the device, the access point, the network and the kind of
/// management as they are, and the client's name and address by its lease; a client without a
/// lease has the latter two empty.
pub proof fn client_labels_tell_the_client(source: LabelSource)
    ensures
        source.labels().len() == 7,
        source.labels()[0] == (LabelView { name: "mac_address"@, value: source.mac_address }),
        source.labels()[1] == (LabelView { name: "hostname"@, value: source.identity }),
        source.labels()[2].name == "client_hostname"@,
        source.labels()[3].name == "client_ip"@,
        source.labels()[4] == (LabelView { name: "cap_identity"@, value: source.cap_identity }),
        source.labels()[5] == (LabelView { name: "ssid"@, value: source.ssid }),
        source.labels()[6] == (LabelView { name: "caps"@, value: source.caps }),
        source.leases.contains_key(source.mac_address) ==> {
            &&& source.labels()[2].value == source.leases[source.mac_address].hostname@
            &&& source.labels()[3].value == source.leases[source.mac_address].ip@
        },
        !source.leases.contains_key(source.mac_address) ==> {
            &&& source.labels()[2].value.len() == 0
            &&& source.labels()[3].value.len() == 0
        },
{
}

} // verus!
