//! The text that a scrape is answered with.

use crate::collection::{
    lemma_reported_under_push, nothing_recorded, reported, reported_under, MetricsCollection,
    Recorded,
};
use crate::key::{all_keys, family_name, family_names_are_distinct, MetricKey};
use crate::metric::{families_view, FamilyView, MetricFamily};
use prometheus::proto;
use prometheus::Encoder;
use vstd::prelude::*;

verus! {

/// `prometheus::Error`: why the encoder refused a family.
#[verifier::external_type_specification]
#[verifier::external_body]
pub struct ExPrometheusError(prometheus::Error);

/// What `prometheus::TextEncoder` writes for one family.
pub uninterp spec fn family_text(family: FamilyView) -> Seq<u8>;

/// The text of the families, one after the other.
pub open spec fn exposition(families: Seq<FamilyView>) -> Seq<u8> {
    families.map_values(|f: FamilyView| family_text(f)).flatten()
}

/// A family that can be written: it has a name and at least one metric.
pub open spec fn presentable(family: FamilyView) -> bool {
    &&& family.name.len() > 0
    &&& family.metric.len() > 0
}

/// `Encoder::encode` of `prometheus::TextEncoder`, on counters. It succeeds if and only if every
/// family has a name and at least one metric, and then writes the families one after the other.
/// What it writes for one family depends on that family alone; how that text looks is not said
/// here.
#[verifier::external_body]
fn text_encode(families: Vec<MetricFamily>) -> (text: Result<Vec<u8>, prometheus::Error>)
    ensures
        text is Ok <==> forall|i: int|
            0 <= i < families@.len() ==> presentable(#[trigger] families@[i]@),
        text matches Ok(bytes) ==> bytes@ == families_view(families@).map_values(
            |f: FamilyView| family_text(f),
        ).flatten(),
{
    let families = families.into_iter().map(|family| proto::MetricFamily {
        name: Some(family.name),
        metric: family.metric.into_iter().map(|metric| proto::Metric {
            label: metric.label.into_iter().map(|pair| proto::LabelPair {
                name: Some(pair.name),
                value: Some(pair.value),
                ..Default::default()
            }).collect(),
            counter: protobuf::MessageField::some(metric.counter),
            ..Default::default()
        }).collect(),
        ..Default::default()
    }).collect::<Vec<_>>();
    let mut text = Vec::new();
    prometheus::TextEncoder::new().encode(&families, &mut text).map(|_| text)
}

/// A family without a name or without metrics was to be written.
#[derive(Debug, PartialEq, Eq)]
pub struct EncodeError;

/// The text of the families, one after the other. Fails if one of them has no name or no metric.
pub fn encode(families: Vec<MetricFamily>) -> (text: Result<Vec<u8>, EncodeError>)
    ensures
        text is Ok <==> forall|i: int|
            0 <= i < families@.len() ==> presentable(#[trigger] families@[i]@),
        text matches Ok(bytes) ==> bytes@ == exposition(families_view(families@)),
        text is Ok <==> forall|i: int|
            0 <= i < families@.len() ==> (#[trigger] families@[i]).name@.len() > 0
                && families@[i].metric@.len() > 0,
        text matches Ok(bytes) ==> bytes@ == families_view(families@).map_values(
            |f: FamilyView| family_text(f),
        ).flatten(),
{
    proof {
        assert(forall|i: int|
            0 <= i < families@.len() ==> ((#[trigger] families@[i]).name@.len() > 0
                && families@[i].metric@.len() > 0 <==> presentable(families@[i]@)));
    }
    match text_encode(families) {
        Ok(bytes) => Ok(bytes),
        Err(_) => Err(EncodeError),
    }
}

/// The answer to a scrape that recorded `collection`. There always is one.
pub fn metrics(collection: MetricsCollection) -> (text: Result<Vec<u8>, EncodeError>)
    requires
        collection.wf(),
    ensures
        text matches Ok(bytes) && bytes@ == exposition(reported(collection@)),
{
    let families = collection.collect();
    proof {
        reported_is_presentable(collection@);
        assert forall|i: int| 0 <= i < families@.len() implies presentable(
            #[trigger] families@[i]@,
        ) by {
            assert(families_view(families@)[i] == families@[i]@);
        }
    }
    encode(families)
}

/// Whatever was recorded, every family of the report has a name and a metric.
pub proof fn reported_is_presentable(recorded: Recorded)
    ensures
        forall|i: int|
            0 <= i < reported(recorded).len() ==> presentable(#[trigger] reported(recorded)[i]),
{
    let some = |key: MetricKey| recorded[key].len() > 0;
    let keys = all_keys().filter(some);
    assert forall|i: int| 0 <= i < reported(recorded).len() implies presentable(
        #[trigger] reported(recorded)[i],
    ) by {
        all_keys().lemma_filter_pred(some, i);
        family_names_are_distinct(keys[i], keys[i]);
    }
}

/// What the metrics under `key` add to the text: nothing where there are none.
pub open spec fn key_text(recorded: Recorded, key: MetricKey) -> Seq<u8> {
    if recorded[key].len() > 0 {
        family_text(FamilyView { name: family_name(key), metric: recorded[key] })
    } else {
        Seq::empty()
    }
}

/// The text consists of the texts of the keys, each of which depends only on what is recorded
/// under that key.
pub proof fn text_is_made_of_key_texts(recorded: Recorded)
    ensures
        exposition(reported(recorded)) == all_keys().map_values(
            |key: MetricKey| key_text(recorded, key),
        ).flatten(),
{
    let n = all_keys().len() as int;
    lemma_text_of_keys(recorded, n);
    assert(all_keys().take(n) =~= all_keys());
}

proof fn lemma_text_of_keys(recorded: Recorded, n: int)
    requires
        0 <= n <= all_keys().len(),
    ensures
        exposition(reported_under(all_keys().take(n), recorded)) == all_keys().take(n).map_values(
            |key: MetricKey| key_text(recorded, key),
        ).flatten(),
    decreases n,
{
    let text = |f: FamilyView| family_text(f);
    let part = |key: MetricKey| key_text(recorded, key);
    let keys = all_keys().take(n);
    if n == 0 {
        reveal(Seq::filter);
        assert(reported_under(keys, recorded) =~= Seq::empty());
        assert(exposition(reported_under(keys, recorded)) =~= Seq::empty());
        assert(keys.map_values(part) =~= Seq::empty());
    } else {
        let earlier = all_keys().take(n - 1);
        let key = all_keys()[n - 1];
        lemma_text_of_keys(recorded, n - 1);
        lemma_reported_under_push(earlier, key, recorded);
        assert(keys =~= earlier.push(key));
        assert(keys.map_values(part) =~= earlier.map_values(part).push(key_text(recorded, key)));
        earlier.map_values(part).lemma_flatten_push(key_text(recorded, key));
        let report = reported_under(earlier, recorded);
        if recorded[key].len() > 0 {
            let family = FamilyView { name: family_name(key), metric: recorded[key] };
            assert(report.push(family).map_values(text) =~= report.map_values(text).push(
                family_text(family),
            ));
            report.map_values(text).lemma_flatten_push(family_text(family));
        } else {
            assert(earlier.map_values(part).flatten() + Seq::empty() =~= earlier.map_values(
                part,
            ).flatten());
        }
    }
}

/// A scrape that recorded nothing is answered with no text.
pub proof fn nothing_recorded_gives_no_text()
    ensures
        exposition(reported(nothing_recorded())) == Seq::<u8>::empty(),
{
    text_is_made_of_key_texts(nothing_recorded());
    lemma_no_text(all_keys());
}

proof fn lemma_no_text(keys: Seq<MetricKey>)
    ensures
        keys.map_values(|key: MetricKey| key_text(nothing_recorded(), key)).flatten() == Seq::<
            u8,
        >::empty(),
    decreases keys.len(),
{
    let part = |key: MetricKey| key_text(nothing_recorded(), key);
    if keys.len() > 0 {
        lemma_no_text(keys.drop_first());
        assert(keys.map_values(part).drop_first() =~= keys.drop_first().map_values(part));
    }
}

/// The text of one family more is the text of the others with that family's text behind it.
pub proof fn texts_follow_each_other(families: Seq<FamilyView>, family: FamilyView)
    ensures
        exposition(Seq::<FamilyView>::empty()) == Seq::<u8>::empty(),
        exposition(families.push(family)) == exposition(families) + family_text(family),
{
    let text = |f: FamilyView| family_text(f);
    assert(Seq::<FamilyView>::empty().map_values(text) =~= Seq::<Seq<u8>>::empty());
    assert(families.push(family).map_values(text) =~= families.map_values(text).push(
        family_text(family),
    ));
    families.map_values(text).lemma_flatten_push(family_text(family));
}

/// A family can be written if and only if it has a name and a metric.
pub proof fn presentable_families_are_named_and_filled(family: FamilyView)
    ensures
        presentable(family) <==> family.name.len() > 0 && family.metric.len() > 0,
{
}

} // verus!
