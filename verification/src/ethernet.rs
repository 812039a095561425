//! Ethernet ports that feed their peers.

use crate::key::{MetricKey, PoeKey};
use crate::metric::{
    create_label_pair, create_metric_value, labels_view, names_device, sent_view, LabelView, Metric,
    MetricView,
};
use prometheus::proto::Counter;
use vstd::prelude::*;

verus! {

/// An Ethernet interface as a device lists it.
pub struct InterfaceEthernet<P, I> {
    /// The setting of the power output; absent where the port has none.
    pub poe_out: Option<P>,
    pub id: I,
}

/// The readings of a port that has a power output.
pub struct PoeMonitor {
    pub name: String,
    pub poe_out_voltage: Option<Counter>,
    pub poe_out_current: Option<Counter>,
    pub poe_out_power: Option<Counter>,
}

/// The ports that have a power output, in the order of the listing.
pub open spec fn powered<P, I>(rows: Seq<InterfaceEthernet<P, I>>) -> Seq<I> {
    rows.filter(|row: InterfaceEthernet<P, I>| row.poe_out is Some).map_values(
        |row: InterfaceEthernet<P, I>| row.id,
    )
}

proof fn lemma_powered_push<P, I>(
    rows: Seq<InterfaceEthernet<P, I>>,
    row: InterfaceEthernet<P, I>,
)
    ensures
        powered(rows.push(row)) == if row.poe_out is Some {
            powered(rows).push(row.id)
        } else {
            powered(rows)
        },
{
    reveal(Seq::filter);
    assert(rows.push(row).drop_last() =~= rows);
    assert(powered(rows.push(row)) =~= if row.poe_out is Some {
        powered(rows).push(row.id)
    } else {
        powered(rows)
    });
}

/// The ports to be monitored: those that have a power output.
pub fn poe_ports<P, I>(rows: Vec<InterfaceEthernet<P, I>>) -> (ids: Vec<I>)
    ensures
        ids@ == powered(rows@),
        ids@ == rows@.filter(|row: InterfaceEthernet<P, I>| row.poe_out is Some).map_values(
            |row: InterfaceEthernet<P, I>| row.id,
        ),
{
    let ghost listed = rows@;
    let mut ids: Vec<I> = Vec::new();
    proof {
        reveal(Seq::filter);
        assert(ids@ =~= powered(listed.take(0)));
    }
    for row in it: rows
        invariant
            it.seq() == listed,
            ids@ == powered(listed.take(it.index() as int)),
    {
        proof {
            let i = it.index() as int;
            lemma_powered_push(listed.take(i), listed[i]);
            assert(listed.take(i).push(listed[i]) =~= listed.take(i + 1));
        }
        if row.poe_out.is_some() {
            ids.push(row.id);
        }
    }
    assert(listed.take(listed.len() as int) =~= listed);
    ids
}

/// The labels of a port's metrics.
pub open spec fn poe_labels(identity: Seq<char>, name: Seq<char>) -> Seq<LabelView> {
    seq![
        LabelView { name: "hostname"@, value: identity },
        LabelView { name: "interface"@, value: name },
    ]
}

/// The metric of one reading of a port; none where there is no reading.
pub open spec fn poe_metric(
    key: PoeKey,
    label: Seq<LabelView>,
    reading: Option<Counter>,
) -> Seq<(MetricKey, MetricView)> {
    match reading {
        Some(counter) => seq![(MetricKey::Poe(key), MetricView { label, counter })],
        None => Seq::empty(),
    }
}

/// The metrics of a port: voltage, current and power, as far as they were read.
pub open spec fn poe_metrics(identity: Seq<char>, port: PoeMonitor) -> Seq<(MetricKey, MetricView)> {
    let label = poe_labels(identity, port.name@);
    poe_metric(PoeKey::Voltage, label, port.poe_out_voltage) + poe_metric(
        PoeKey::Current,
        label,
        port.poe_out_current,
    ) + poe_metric(PoeKey::Power, label, port.poe_out_power)
}

/// The metrics of a port, in the order in which they are sent.
pub fn collect_ethernet_metric(identity: &str, value: PoeMonitor) -> (metrics: Vec<
    (MetricKey, Metric),
>)
    ensures
        sent_view(metrics@) == poe_metrics(identity@, value),
        ({
            let voltages: int = if value.poe_out_voltage is Some {
                1
            } else {
                0
            };
            let currents: int = if value.poe_out_current is Some {
                1
            } else {
                0
            };
            let powers: int = if value.poe_out_power is Some {
                1
            } else {
                0
            };
            &&& metrics@.len() == voltages + currents + powers
            &&& value.poe_out_voltage matches Some(voltage) ==> metrics@[0].0 == MetricKey::Poe(
                PoeKey::Voltage,
            ) && metrics@[0].1.counter == voltage
            &&& value.poe_out_current matches Some(current) ==> metrics@[voltages].0
                == MetricKey::Poe(PoeKey::Current) && metrics@[voltages].1.counter == current
            &&& value.poe_out_power matches Some(power) ==> metrics@[voltages + currents].0
                == MetricKey::Poe(PoeKey::Power) && metrics@[voltages + currents].1.counter == power
        }),
        forall|i: int|
            0 <= i < metrics@.len() ==> {
                &&& (#[trigger] metrics@[i]).1.label@.len() == 2
                &&& metrics@[i].1.label@[0].name@ == "hostname"@
                &&& metrics@[i].1.label@[0].value@ == identity@
                &&& metrics@[i].1.label@[1].name@ == "interface"@
                &&& metrics@[i].1.label@[1].value@ == value.name@
            },
{
    let mut metrics: Vec<(MetricKey, Metric)> = Vec::new();
    let labels = vec![
        create_label_pair("hostname", identity.to_string()),
        create_label_pair("interface", value.name),
    ];
    assert(labels_view(labels@) =~= poe_labels(identity@, value.name@));
    if let Some(voltage) = value.poe_out_voltage {
        metrics.push((MetricKey::Poe(PoeKey::Voltage), create_metric_value(&labels, voltage)));
    }
    if let Some(current) = value.poe_out_current {
        metrics.push((MetricKey::Poe(PoeKey::Current), create_metric_value(&labels, current)));
    }
    if let Some(power) = value.poe_out_power {
        metrics.push((MetricKey::Poe(PoeKey::Power), create_metric_value(&labels, power)));
    }
    assert(sent_view(metrics@) =~= poe_metrics(identity@, value));
    metrics
}

/// Every metric of a port names the device that reports it.
pub proof fn poe_metrics_name_their_device(identity: Seq<char>, port: PoeMonitor, i: int)
    requires
        0 <= i < poe_metrics(identity, port).len(),
    ensures
        names_device(poe_metrics(identity, port)[i].1.label, identity),
{
    let label = poe_labels(identity, port.name@);
    assert(label[0] == (LabelView { name: "hostname"@, value: identity }));
}

/// A port is monitored if and only if it has a power output, whatever the setting of that output,
/// and ports are monitored in the order in which they are listed.
pub proof fn powered_goes_row_by_row<P, I>(
    earlier: Seq<InterfaceEthernet<P, I>>,
    row: InterfaceEthernet<P, I>,
)
    ensures
        powered(Seq::<InterfaceEthernet<P, I>>::empty()) == Seq::<I>::empty(),
        row.poe_out is Some ==> powered(earlier.push(row)) == powered(earlier).push(row.id),
        row.poe_out is None ==> powered(earlier.push(row)) == powered(earlier),
{
    reveal(Seq::filter);
    assert(powered(Seq::<InterfaceEthernet<P, I>>::empty()) =~= Seq::<I>::empty());
    lemma_powered_push(earlier, row);
}

/// Every reading of a port that is there is sent once under its own key, whatever it is and
/// whatever the others are, and nothing else is sent.
pub proof fn port_readings_go_under_their_keys(identity: Seq<char>, port: PoeMonitor, i: int)
    ensures
        ({
            let metrics = poe_metrics(identity, port);
            &&& 0 <= i < metrics.len() ==> {
                &&& match metrics[i].0 {
                    MetricKey::Poe(PoeKey::Voltage) => port.poe_out_voltage == Some(
                        metrics[i].1.counter,
                    ),
                    MetricKey::Poe(PoeKey::Current) => port.poe_out_current == Some(
                        metrics[i].1.counter,
                    ),
                    MetricKey::Poe(PoeKey::Power) => port.poe_out_power == Some(
                        metrics[i].1.counter,
                    ),
                    _ => false,
                }
                &&& metrics[i].1.label == seq![
                    LabelView { name: "hostname"@, value: identity },
                    LabelView { name: "interface"@, value: port.name@ },
                ]
            }
            &&& forall|a: int, b: int|
                0 <= a < b < metrics.len() ==> (#[trigger] metrics[a]).0 != (#[trigger] metrics[b]).0
            &&& metrics.len() == (if port.poe_out_voltage is Some {
                1int
            } else {
                0
            }) + (if port.poe_out_current is Some {
                1int
            } else {
                0
            }) + (if port.poe_out_power is Some {
                1int
            } else {
                0
            })
        }),
{
}

} // verus!
