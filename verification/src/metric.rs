//! Metrics, their labels and the families that hold them.

use crate::key::MetricKey;
use vstd::prelude::*;

verus! {

/// `prometheus::proto::Counter`: the number of a metric. It is carried through and never read.
#[verifier::external_type_specification]
#[verifier::external_body]
pub struct ExCounter(prometheus::proto::Counter);

/// A label and its value.
#[derive(Debug)]
pub struct LabelPair {
    pub name: String,
    pub value: String,
}

/// One labelled number.
#[derive(Debug)]
pub struct Metric {
    pub label: Vec<LabelPair>,
    pub counter: prometheus::proto::Counter,
}

/// The metrics that are reported under one name.
#[derive(Debug)]
pub struct MetricFamily {
    pub name: String,
    pub metric: Vec<Metric>,
}

/// What a [`LabelPair`] says.
pub ghost struct LabelView {
    pub name: Seq<char>,
    pub value: Seq<char>,
}

/// What a [`Metric`] says.
pub ghost struct MetricView {
    pub label: Seq<LabelView>,
    pub counter: prometheus::proto::Counter,
}

/// What a [`MetricFamily`] says.
pub ghost struct FamilyView {
    pub name: Seq<char>,
    pub metric: Seq<MetricView>,
}

impl View for LabelPair {
    type V = LabelView;

    open spec fn view(&self) -> LabelView {
        LabelView { name: self.name@, value: self.value@ }
    }
}

impl View for Metric {
    type V = MetricView;

    open spec fn view(&self) -> MetricView {
        MetricView { label: labels_view(self.label@), counter: self.counter }
    }
}

impl View for MetricFamily {
    type V = FamilyView;

    open spec fn view(&self) -> FamilyView {
        FamilyView { name: self.name@, metric: metrics_view(self.metric@) }
    }
}

/// What the labels say, one by one.
pub open spec fn labels_view(labels: Seq<LabelPair>) -> Seq<LabelView> {
    labels.map_values(|l: LabelPair| l@)
}

/// What the metrics say, one by one.
pub open spec fn metrics_view(metrics: Seq<Metric>) -> Seq<MetricView> {
    metrics.map_values(|m: Metric| m@)
}

/// What the families say, one by one.
pub open spec fn families_view(families: Seq<MetricFamily>) -> Seq<FamilyView> {
    families.map_values(|f: MetricFamily| f@)
}

/// Metrics that are sent, with the keys that they are sent under.
pub open spec fn sent_view(sent: Seq<(MetricKey, Metric)>) -> Seq<(MetricKey, MetricView)> {
    sent.map_values(|s: (MetricKey, Metric)| (s.0, s.1@))
}

/// The labels tell which device a metric comes from.
pub open spec fn names_device(label: Seq<LabelView>, identity: Seq<char>) -> bool {
    label.contains(LabelView { name: "hostname"@, value: identity })
}

impl Clone for LabelPair {
    fn clone(&self) -> (copy: Self)
        ensures
            copy == *self,
    {
        LabelPair { name: self.name.clone(), value: self.value.clone() }
    }
}

/// The label `name` with the given value.
pub fn create_label_pair(name: &str, value: String) -> (pair: LabelPair)
    ensures
        pair@ == (LabelView { name: name@, value: value@ }),
        pair.name@ == name@,
        pair.value@ == value@,
{
    LabelPair { name: name.to_string(), value }
}

/// A metric of its own with the given labels and number.
pub fn create_metric_value(label: &Vec<LabelPair>, x: prometheus::proto::Counter) -> (metric:
    Metric)
    ensures
        metric@ == (MetricView { label: labels_view(label@), counter: x }),
        metric.label@ == label@,
        metric.counter == x,
{
    let copy = label.clone();
    assert(copy@ =~= label@);
    Metric { label: copy, counter: x }
}

/// A family that holds no metric yet.
pub fn create_metric(name: &str) -> (family: MetricFamily)
    ensures
        family@ == (FamilyView { name: name@, metric: Seq::empty() }),
        family.name@ == name@,
        family.metric@.len() == 0,
{
    let family = MetricFamily { name: name.to_string(), metric: Vec::new() };
    assert(family@.metric =~= Seq::empty());
    family
}

/// What a family says is its name and, metric by metric, the labels and the number, with nothing
/// left out.
pub proof fn views_leave_nothing_out(family: MetricFamily, i: int, j: int)
    requires
        0 <= i < family.metric@.len(),
        0 <= j < family.metric@[i].label@.len(),
    ensures
        family@.name == family.name@,
        family@.metric.len() == family.metric@.len(),
        family@.metric[i] == family.metric@[i]@,
        family@.metric[i].counter == family.metric@[i].counter,
        family@.metric[i].label.len() == family.metric@[i].label@.len(),
        family@.metric[i].label[j] == family.metric@[i].label@[j]@,
        family@.metric[i].label[j].name == family.metric@[i].label@[j].name@,
        family@.metric[i].label[j].value == family.metric@[i].label@[j].value@,
{
}

/// Labels, metrics, families and sent metrics are viewed one by one, in their order.
pub proof fn views_go_one_by_one(
    labels: Seq<LabelPair>,
    metrics: Seq<Metric>,
    families: Seq<MetricFamily>,
    sent: Seq<(MetricKey, Metric)>,
)
    ensures
        labels_view(labels).len() == labels.len(),
        forall|i: int| 0 <= i < labels.len() ==> #[trigger] labels_view(labels)[i] == labels[i]@,
        metrics_view(metrics).len() == metrics.len(),
        forall|i: int|
            0 <= i < metrics.len() ==> #[trigger] metrics_view(metrics)[i] == metrics[i]@,
        families_view(families).len() == families.len(),
        forall|i: int|
            0 <= i < families.len() ==> #[trigger] families_view(families)[i] == families[i]@,
        sent_view(sent).len() == sent.len(),
        forall|i: int|
            0 <= i < sent.len() ==> (#[trigger] sent_view(sent)[i]).0 == sent[i].0 && sent_view(
                sent,
            )[i].1 == sent[i].1@,
        forall|m: Metric| #[trigger] m@.label == labels_view(m.label@) && m@.counter == m.counter,
        forall|f: MetricFamily|
            #[trigger] f@.metric == metrics_view(f.metric@) && f@.name == f.name@,
{
}

} // verus!
