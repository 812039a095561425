//! The metrics of one scrape, sorted into families.

use crate::key::{
    all_keys, family_name, family_names_are_distinct, key_index, keys_are_listed_once, HealthKey,
    MetricKey, PoeKey, WlanKey,
};
use crate::metric::{
    create_metric, families_view, metrics_view, FamilyView, Metric, MetricFamily, MetricView,
};
use vstd::prelude::*;

verus! {

/// One family for every key.
pub struct MetricsCollection {
    reg_tx_bytes: MetricFamily,
    reg_rx_bytes: MetricFamily,
    reg_tx_packets: MetricFamily,
    reg_rx_packets: MetricFamily,
    reg_rx_signal: MetricFamily,
    reg_uptime: MetricFamily,
    health_temperature: MetricFamily,
    health_voltage: MetricFamily,
    health_current: MetricFamily,
    health_power: MetricFamily,
    health_rpm: MetricFamily,
    ethernet_poe_out_voltage: MetricFamily,
    ethernet_poe_out_current: MetricFamily,
    ethernet_poe_out_power: MetricFamily,
}

/// The metrics recorded under each key, in the order of their arrival.
pub type Recorded = Map<MetricKey, Seq<MetricView>>;

/// Nothing recorded under any key.
pub open spec fn nothing_recorded() -> Recorded {
    Map::total(|key: MetricKey| Seq::empty())
}

/// `recorded` with one more metric under `key`.
pub open spec fn record(recorded: Recorded, key: MetricKey, metric: MetricView) -> Recorded {
    recorded.insert(key, recorded[key].push(metric))
}

/// The families of those among `keys` under which something is recorded, in the order of `keys`.
pub open spec fn reported_under(keys: Seq<MetricKey>, recorded: Recorded) -> Seq<FamilyView> {
    keys.filter(|key: MetricKey| recorded[key].len() > 0).map_values(
        |key: MetricKey| FamilyView { name: family_name(key), metric: recorded[key] },
    )
}

/// The families under which something is recorded, in the fixed order of all keys.
pub open spec fn reported(recorded: Recorded) -> Seq<FamilyView> {
    reported_under(all_keys(), recorded)
}

impl View for MetricsCollection {
    type V = Recorded;

    closed spec fn view(&self) -> Recorded {
        Map::total(|key: MetricKey| metrics_view(self.family(key).metric@))
    }
}

impl Default for MetricsCollection {
    /// The named families, without metrics.
    fn default() -> (collection: Self)
        ensures
            collection.wf(),
            collection@ == nothing_recorded(),
            forall|key: MetricKey| (#[trigger] collection@[key]).len() == 0,
    {
        let collection = MetricsCollection {
            reg_tx_bytes: create_metric("mikrotik_exporter_wlan_registration_tx_bytes"),
            reg_rx_bytes: create_metric("mikrotik_exporter_wlan_registration_rx_bytes"),
            reg_tx_packets: create_metric("mikrotik_exporter_wlan_registration_tx_packets"),
            reg_rx_packets: create_metric("mikrotik_exporter_wlan_registration_rx_packets"),
            reg_rx_signal: create_metric("mikrotik_exporter_wlan_registration_rx_signal"),
            reg_uptime: create_metric("mikrotik_exporter_wlan_registration_uptime"),
            health_temperature: create_metric("mikrotik_exporter_health_temperature"),
            health_voltage: create_metric("mikrotik_exporter_health_voltage"),
            health_current: create_metric("mikrotik_exporter_health_current"),
            health_power: create_metric("mikrotik_exporter_health_power"),
            health_rpm: create_metric("mikrotik_exporter_health_rpm"),
            ethernet_poe_out_voltage: create_metric("mikrotik_exporter_ethernet_poe_out_voltage"),
            ethernet_poe_out_current: create_metric("mikrotik_exporter_ethernet_poe_out_current"),
            ethernet_poe_out_power: create_metric("mikrotik_exporter_ethernet_poe_out_power"),
        };
        assert forall|key: MetricKey| (#[trigger] collection.family(key))@.name == family_name(
            key,
        ) && collection.family(key)@.metric == Seq::<MetricView>::empty() by {}
        assert(collection@ =~= nothing_recorded());
        collection
    }
}

impl MetricsCollection {
    /// The family of `key`.
    closed spec fn family(self, key: MetricKey) -> MetricFamily {
        match key {
            MetricKey::Wlan(WlanKey::TxBytes) => self.reg_tx_bytes,
            MetricKey::Wlan(WlanKey::RxBytes) => self.reg_rx_bytes,
            MetricKey::Wlan(WlanKey::TxPackets) => self.reg_tx_packets,
            MetricKey::Wlan(WlanKey::RxPackets) => self.reg_rx_packets,
            MetricKey::Wlan(WlanKey::RxSignal) => self.reg_rx_signal,
            MetricKey::Wlan(WlanKey::Uptime) => self.reg_uptime,
            MetricKey::Health(HealthKey::Temperature) => self.health_temperature,
            MetricKey::Health(HealthKey::Voltage) => self.health_voltage,
            MetricKey::Health(HealthKey::Current) => self.health_current,
            MetricKey::Health(HealthKey::Power) => self.health_power,
            MetricKey::Health(HealthKey::Rpm) => self.health_rpm,
            MetricKey::Poe(PoeKey::Voltage) => self.ethernet_poe_out_voltage,
            MetricKey::Poe(PoeKey::Current) => self.ethernet_poe_out_current,
            MetricKey::Poe(PoeKey::Power) => self.ethernet_poe_out_power,
        }
    }

    /// Every family carries the name of its key.
    pub closed spec fn wf(self) -> bool {
        forall|key: MetricKey| (#[trigger] self.family(key)).name@ == family_name(key)
    }

    /// Records a metric under its key, behind those that are there.
    pub fn push(&mut self, key: MetricKey, metric: Metric)
        requires
            old(self).wf(),
        ensures
            final(self).wf(),
            final(self)@ == record(old(self)@, key, metric@),
            final(self)@ == old(self)@.insert(key, old(self)@[key].push(metric@)),
    {
        match key {
            MetricKey::Wlan(WlanKey::RxBytes) => {
                self.reg_rx_bytes.metric.push(metric);
            },
            MetricKey::Wlan(WlanKey::TxBytes) => {
                self.reg_tx_bytes.metric.push(metric);
            },
            MetricKey::Wlan(WlanKey::TxPackets) => {
                self.reg_tx_packets.metric.push(metric);
            },
            MetricKey::Wlan(WlanKey::RxPackets) => {
                self.reg_rx_packets.metric.push(metric);
            },
            MetricKey::Wlan(WlanKey::RxSignal) => {
                self.reg_rx_signal.metric.push(metric);
            },
            MetricKey::Wlan(WlanKey::Uptime) => {
                self.reg_uptime.metric.push(metric);
            },
            MetricKey::Health(HealthKey::Temperature) => {
                self.health_temperature.metric.push(metric);
            },
            MetricKey::Health(HealthKey::Voltage) => {
                self.health_voltage.metric.push(metric);
            },
            MetricKey::Health(HealthKey::Current) => {
                self.health_current.metric.push(metric);
            },
            MetricKey::Health(HealthKey::Power) => {
                self.health_power.metric.push(metric);
            },
            MetricKey::Health(HealthKey::Rpm) => {
                self.health_rpm.metric.push(metric);
            },
            MetricKey::Poe(PoeKey::Current) => {
                self.ethernet_poe_out_current.metric.push(metric);
            },
            MetricKey::Poe(PoeKey::Voltage) => {
                self.ethernet_poe_out_voltage.metric.push(metric);
            },
            MetricKey::Poe(PoeKey::Power) => {
                self.ethernet_poe_out_power.metric.push(metric);
            },
        }
        proof {
            let before = old(self).family(key).metric@;
            assert(metrics_view(before.push(metric)) =~= metrics_view(before).push(metric@));
            assert forall|k: MetricKey| (#[trigger] self.family(k)).name@ == family_name(k) by {
                assert(old(self).family(k).name@ == family_name(k));
            }
            assert(self@ =~= record(old(self)@, key, metric@));
        }
    }

    /// Takes the next item of the merged stream of metrics and deadline. Gives whether the
    /// scrape goes on: a metric is recorded, the deadline (`Some(None)`) and the end of the
    /// stream (`None`) stop the scrape.
    pub fn receive(&mut self, item: Option<Option<(MetricKey, Metric)>>) -> (go_on: bool)
        requires
            old(self).wf(),
        ensures
            final(self).wf(),
            go_on <==> item matches Some(Some(_)),
            match item {
                Some(Some((key, metric))) => {
                    &&& final(self)@ == record(old(self)@, key, metric@)
                    &&& final(self)@ == old(self)@.insert(key, old(self)@[key].push(metric@))
                },
                _ => *final(self) == *old(self),
            },
    {
        match item {
            Some(Some((key, metric))) => {
                self.push(key, metric);
                true
            },
            _ => false,
        }
    }

    /// The families under which something was recorded.
    pub fn collect(self) -> (families: Vec<MetricFamily>)
        requires
            self.wf(),
        ensures
            families_view(families@) == reported(self@),
            forall|i: int|
                0 <= i < families@.len() ==> (#[trigger] families@[i]).metric@.len() > 0,
    {
        let ghost recorded = self@;
        let ghost keys = all_keys();
        let all: Vec<MetricFamily> = vec![
            self.reg_tx_bytes,
            self.reg_rx_bytes,
            self.reg_tx_packets,
            self.reg_rx_packets,
            self.reg_rx_signal,
            self.reg_uptime,
            self.health_temperature,
            self.health_voltage,
            self.health_current,
            self.health_power,
            self.health_rpm,
            self.ethernet_poe_out_voltage,
            self.ethernet_poe_out_current,
            self.ethernet_poe_out_power,
        ];
        let mut families: Vec<MetricFamily> = Vec::new();
        proof {
            assert(all@.len() == keys.len());
            assert forall|i: int| 0 <= i < keys.len() implies (#[trigger] all@[i])@ == (
            FamilyView { name: family_name(keys[i]), metric: recorded[keys[i]] }) by {
                assert(all@[i] == self.family(keys[i]));
            }
            assert(keys.take(0) =~= Seq::empty());
            reveal(Seq::filter);
            assert(families_view(families@) =~= reported_under(keys.take(0), recorded));
        }
        for family in it: all
            invariant
                it.seq() == all@,
                all@.len() == keys.len(),
                forall|i: int|
                    0 <= i < keys.len() ==> (#[trigger] all@[i])@ == (FamilyView {
                        name: family_name(keys[i]),
                        metric: recorded[keys[i]],
                    }),
                families_view(families@) == reported_under(keys.take(it.index() as int), recorded),
        {
            let ghost i = it.index() as int;
            let ghost before = families@;
            assert(family == all@[i]);
            proof {
                lemma_reported_under_push(keys.take(i), keys[i], recorded);
                assert(keys.take(i).push(keys[i]) =~= keys.take(i + 1));
                assert(family@.metric.len() == family.metric@.len());
                assert(families_view(before.push(family)) =~= families_view(before).push(family@));
            }
            if !family.metric.is_empty() {
                families.push(family);
            }
        }
        assert(keys.take(keys.len() as int) =~= keys);
        proof {
            lemma_collected(families@, recorded);
        }
        families
    }
}

/// One more key adds its family to the end of the report, if something is recorded under it.
pub(crate) proof fn lemma_reported_under_push(keys: Seq<MetricKey>, key: MetricKey, recorded: Recorded)
    ensures
        reported_under(keys.push(key), recorded) == if recorded[key].len() > 0 {
            reported_under(keys, recorded).push(
                FamilyView { name: family_name(key), metric: recorded[key] },
            )
        } else {
            reported_under(keys, recorded)
        },
{
    reveal(Seq::filter);
    assert(keys.push(key).drop_last() =~= keys);
    assert(reported_under(keys.push(key), recorded) =~= if recorded[key].len() > 0 {
        reported_under(keys, recorded).push(
            FamilyView { name: family_name(key), metric: recorded[key] },
        )
    } else {
        reported_under(keys, recorded)
    });
}

/// An item of the merged stream of metrics and deadline, see [`MetricsCollection::receive`].
pub type Item = Option<Option<(MetricKey, MetricView)>>;

/// The metrics that arrive before the deadline or the end of the stream.
pub open spec fn arrived(items: Seq<Item>) -> Seq<(MetricKey, MetricView)>
    decreases items.len(),
{
    if items.len() == 0 {
        Seq::empty()
    } else {
        match items[0] {
            Some(Some(sent)) => seq![sent] + arrived(items.drop_first()),
            _ => Seq::empty(),
        }
    }
}

/// What is recorded once the items were received one after the other, until one of them stops
/// the scrape.
pub open spec fn gathered(recorded: Recorded, items: Seq<Item>) -> Recorded
    decreases items.len(),
{
    if items.len() == 0 {
        recorded
    } else {
        match items[0] {
            Some(Some((key, metric))) => gathered(
                record(recorded, key, metric),
                items.drop_first(),
            ),
            _ => recorded,
        }
    }
}

/// The metrics among `sent` that were sent under `key`, in their order.
pub open spec fn sent_under(sent: Seq<(MetricKey, MetricView)>, key: MetricKey) -> Seq<MetricView> {
    sent.filter(|s: (MetricKey, MetricView)| s.0 == key).map_values(
        |s: (MetricKey, MetricView)| s.1,
    )
}

/// A family ends up with exactly the metrics that arrived in time under its key, in the order of
/// their arrival, however the metrics of other keys come in between.
pub proof fn families_hold_what_arrived(items: Seq<Item>, key: MetricKey)
    ensures
        gathered(nothing_recorded(), items)[key] == sent_under(arrived(items), key),
{
    lemma_gathered(nothing_recorded(), items, key);
    assert(Seq::empty() + sent_under(arrived(items), key) =~= sent_under(arrived(items), key));
}

proof fn lemma_gathered(recorded: Recorded, items: Seq<Item>, key: MetricKey)
    requires
        recorded.dom() == Set::<MetricKey>::full(),
    ensures
        gathered(recorded, items)[key] == recorded[key] + sent_under(arrived(items), key),
    decreases items.len(),
{
    reveal_with_fuel(Seq::filter, 2);
    if items.len() == 0 {
        assert(recorded[key] + sent_under(arrived(items), key) =~= recorded[key]);
    } else {
        match items[0] {
            Some(Some((k, metric))) => {
                let rest = items.drop_first();
                assert(record(recorded, k, metric).dom() =~= Set::<MetricKey>::full());
                lemma_gathered(record(recorded, k, metric), rest, key);
                let own = |s: (MetricKey, MetricView)| s.0 == key;
                let first = seq![(k, metric)];
                Seq::filter_distributes_over_add(first, arrived(rest), own);
                assert(first.drop_last() =~= Seq::empty());
                assert(first.filter(own) =~= if k == key {
                    first
                } else {
                    Seq::empty()
                });
                assert(sent_under(arrived(items), key) =~= if k == key {
                    seq![metric] + sent_under(arrived(rest), key)
                } else {
                    sent_under(arrived(rest), key)
                });
                assert(gathered(recorded, items)[key] =~= recorded[key] + sent_under(
                    arrived(items),
                    key,
                ));
            },
            _ => {
                assert(recorded[key] + sent_under(arrived(items), key) =~= recorded[key]);
            },
        }
    }
}

/// Nothing that comes after the deadline, or after the end of the stream, is recorded.
pub proof fn nothing_is_recorded_after_the_stop(
    recorded: Recorded,
    before: Seq<Item>,
    stop: Item,
    after: Seq<Item>,
)
    requires
        !(stop matches Some(Some(_))),
    ensures
        gathered(recorded, before + seq![stop] + after) == gathered(recorded, before),
    decreases before.len(),
{
    let items = before + seq![stop] + after;
    if before.len() == 0 {
        assert(items[0] == stop);
    } else {
        assert(items[0] == before[0]);
        assert(items.drop_first() =~= before.drop_first() + seq![stop] + after);
        match before[0] {
            Some(Some((key, metric))) => {
                nothing_is_recorded_after_the_stop(
                    record(recorded, key, metric),
                    before.drop_first(),
                    stop,
                    after,
                );
            },
            _ => {},
        }
    }
}

/// The keys under which something is recorded, in the order of all keys.
pub open spec fn reported_keys(recorded: Recorded) -> Seq<MetricKey> {
    all_keys().filter(|key: MetricKey| recorded[key].len() > 0)
}

proof fn lemma_reported_keys(recorded: Recorded, n: int)
    requires
        0 <= n <= all_keys().len(),
    ensures
        ({
            let keys = all_keys().take(n).filter(|key: MetricKey| recorded[key].len() > 0);
            &&& forall|i: int| 0 <= i < keys.len() ==> key_index(#[trigger] keys[i]) < n
            &&& forall|i: int, j: int|
                0 <= i < j < keys.len() ==> key_index(#[trigger] keys[i]) < key_index(
                    #[trigger] keys[j],
                )
        }),
    decreases n,
{
    reveal(Seq::filter);
    let some = |key: MetricKey| recorded[key].len() > 0;
    let keys = all_keys().take(n).filter(some);
    if n > 0 {
        let earlier = all_keys().take(n - 1).filter(some);
        let key = all_keys()[n - 1];
        lemma_reported_keys(recorded, n - 1);
        assert(all_keys().take(n).drop_last() =~= all_keys().take(n - 1));
        assert(all_keys().take(n).last() == key);
        assert(keys == if some(key) {
            earlier.push(key)
        } else {
            earlier
        });
        keys_are_listed_once(key, n - 1);
    }
}

/// A key is reported if and only if something is recorded under it, and then with the name of its
/// family and with all that is recorded under it.
pub proof fn report_is_faithful(recorded: Recorded, key: MetricKey)
    ensures
        recorded[key].len() > 0 <==> exists|i: int|
            0 <= i < reported(recorded).len() && (#[trigger] reported(recorded)[i]).name
                == family_name(key),
        forall|i: int|
            0 <= i < reported(recorded).len() && (#[trigger] reported(recorded)[i]).name
                == family_name(key) ==> reported(recorded)[i].metric == recorded[key],
{
    let some = |k: MetricKey| recorded[k].len() > 0;
    let keys = reported_keys(recorded);
    let report = reported(recorded);
    assert forall|i: int|
        0 <= i < report.len() && (#[trigger] report[i]).name == family_name(
            key,
        ) implies report[i].metric == recorded[key] && recorded[key].len() > 0 by {
        all_keys().lemma_filter_pred(some, i);
        family_names_are_distinct(keys[i], key);
    }
    if recorded[key].len() > 0 {
        keys_are_listed_once(key, 0);
        all_keys().lemma_filter_contains(some, key_index(key));
        let i = choose|i: int| 0 <= i < keys.len() && keys[i] == key;
        assert(report[i].name == family_name(key));
    }
}

/// Families are reported in the order of their keys, hence none twice.
pub proof fn report_keeps_the_order_of_keys(
    recorded: Recorded,
    i: int,
    j: int,
    a: MetricKey,
    b: MetricKey,
)
    requires
        0 <= i < j < reported(recorded).len(),
        reported(recorded)[i].name == family_name(a),
        reported(recorded)[j].name == family_name(b),
    ensures
        key_index(a) < key_index(b),
{
    let keys = reported_keys(recorded);
    let n = all_keys().len() as int;
    assert(all_keys().take(n) =~= all_keys());
    lemma_reported_keys(recorded, n);
    family_names_are_distinct(keys[i], a);
    family_names_are_distinct(keys[j], b);
}

/// A metric that was recorded is in the report, in the family of its key.
pub proof fn recorded_metric_is_reported(recorded: Recorded, key: MetricKey, metric: MetricView)
    ensures
        exists|i: int|
            {
                &&& 0 <= i < reported(record(recorded, key, metric)).len()
                &&& (#[trigger] reported(record(recorded, key, metric))[i]).name == family_name(key)
                &&& reported(record(recorded, key, metric))[i].metric == recorded[key].push(metric)
            },
{
    report_is_faithful(record(recorded, key, metric), key);
}

/// Every family of the report is that of a key, with at least one metric.
pub proof fn report_holds_keys_only(recorded: Recorded, i: int)
    requires
        0 <= i < reported(recorded).len(),
    ensures
        reported(recorded)[i].metric.len() > 0,
        exists|key: MetricKey|
            reported(recorded)[i].name == #[trigger] family_name(key)
                && reported(recorded)[i].metric == recorded[key],
{
    let some = |key: MetricKey| recorded[key].len() > 0;
    all_keys().lemma_filter_pred(some, i);
    let key = reported_keys(recorded)[i];
    assert(reported(recorded)[i].name == family_name(key));
}

/// Recording a metric adds it behind the others of its key and changes no other key.
pub proof fn recording_adds_one_metric(
    recorded: Recorded,
    key: MetricKey,
    metric: MetricView,
    other: MetricKey,
)
    ensures
        nothing_recorded()[other].len() == 0,
        record(recorded, key, metric)[key] == recorded[key].push(metric),
        other != key ==> record(recorded, key, metric)[other] == recorded[other],
{
}

proof fn lemma_collected(families: Seq<MetricFamily>, recorded: Recorded)
    requires
        families_view(families) == reported(recorded),
    ensures
        forall|i: int| 0 <= i < families.len() ==> (#[trigger] families[i]).metric@.len() > 0,
{
    assert forall|i: int| 0 <= i < families.len() implies (#[trigger] families[i]).metric@.len()
        > 0 by {
        report_holds_keys_only(recorded, i);
        assert(families_view(families)[i] == families[i]@);
        assert(families[i]@.metric.len() == families[i].metric@.len());
    }
}

} // verus!
