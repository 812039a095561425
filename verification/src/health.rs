//! Readings of a device's sensors.

use crate::key::{HealthKey, MetricKey};
use crate::metric::{
    create_label_pair, create_metric_value, labels_view, names_device, LabelView, Metric, MetricView,
};
use crate::sentence::{Level, LogLine, LogView};
use crate::text::{latin1, latin1_text, same_text};
use prometheus::proto::Counter;
use vstd::prelude::*;
use vstd::string::StringExecFns;

verus! {

/// A sensor as a device lists it.
pub struct SystemHealthState {
    pub name: String,
    /// The unit of the reading; empty for a state that is no number.
    pub unit: Vec<u8>,
}

/// A reading that is a number.
pub struct Reading {
    pub counter: Counter,
    /// The number as it is printed.
    pub text: String,
}

/// What becomes of a sensor's reading.
pub enum HealthOutcome {
    /// It is sent.
    Send(MetricKey, Metric),
    /// It is passed over.
    Ignore,
    /// It is passed over with a line in the log.
    Warn(LogLine),
}

/// What a [`HealthOutcome`] says.
pub ghost enum HealthOutcomeView {
    Send(MetricKey, MetricView),
    Ignore,
    Warn(LogView),
}

impl View for HealthOutcome {
    type V = HealthOutcomeView;

    open spec fn view(&self) -> HealthOutcomeView {
        match self {
            HealthOutcome::Send(key, metric) => HealthOutcomeView::Send(*key, metric@),
            HealthOutcome::Ignore => HealthOutcomeView::Ignore,
            HealthOutcome::Warn(line) => HealthOutcomeView::Warn(line@),
        }
    }
}

/// What is measured in the given unit.
pub open spec fn unit_key(unit: Seq<char>) -> Option<HealthKey> {
    if unit == "W"@ {
        Some(HealthKey::Power)
    } else if unit == "C"@ {
        Some(HealthKey::Temperature)
    } else if unit == "V"@ {
        Some(HealthKey::Voltage)
    } else if unit == "RPM"@ {
        Some(HealthKey::Rpm)
    } else if unit == "A"@ {
        Some(HealthKey::Current)
    } else {
        None
    }
}

/// The labels of a sensor's metric.
pub open spec fn health_labels(identity: Seq<char>, name: Seq<char>) -> Seq<LabelView> {
    seq![
        LabelView { name: "hostname"@, value: identity },
        LabelView { name: "name"@, value: name },
    ]
}

/// What becomes of a reading: a number in a known unit is sent, a state without a unit is passed
/// over, and what is left is warned of.
pub open spec fn health_outcome(
    identity: Seq<char>,
    name: Seq<char>,
    unit: Seq<char>,
    reading: Result<Reading, String>,
) -> HealthOutcomeView {
    if unit.len() == 0 {
        HealthOutcomeView::Ignore
    } else {
        match (unit_key(unit), reading) {
            (Some(key), Ok(number)) => HealthOutcomeView::Send(
                MetricKey::Health(key),
                MetricView { label: health_labels(identity, name), counter: number.counter },
            ),
            (None, Ok(number)) => HealthOutcomeView::Warn(
                LogView {
                    level: Level::Warn,
                    text: "Unknown health state: "@ + unit + "="@ + number.text@,
                },
            ),
            (_, Err(error)) => HealthOutcomeView::Warn(
                LogView {
                    level: Level::Warn,
                    text: "Cannot parse health state: "@ + unit + ":"@ + error@,
                },
            ),
        }
    }
}

/// What is measured in the given unit.
fn key_of_unit(unit: &String) -> (key: Option<HealthKey>)
    ensures
        key == unit_key(unit@),
{
    if same_text(unit, "W") {
        Some(HealthKey::Power)
    } else if same_text(unit, "C") {
        Some(HealthKey::Temperature)
    } else if same_text(unit, "V") {
        Some(HealthKey::Voltage)
    } else if same_text(unit, "RPM") {
        Some(HealthKey::Rpm)
    } else if same_text(unit, "A") {
        Some(HealthKey::Current)
    } else {
        None
    }
}

/// What becomes of a sensor's reading, which is a number or the reason why it is none.
pub fn collect_health_metric(
    identity: &str,
    state: SystemHealthState,
    reading: Result<Reading, String>,
) -> (outcome: HealthOutcome)
    ensures
        outcome@ == health_outcome(identity@, state.name@, latin1(state.unit@), reading),
        state.unit@.len() == 0 ==> outcome is Ignore,
        outcome is Ignore ==> state.unit@.len() == 0,
        ({
            let unit = latin1(state.unit@);
            let known = unit == "W"@ || unit == "C"@ || unit == "V"@ || unit == "RPM"@ || unit
                == "A"@;
            &&& outcome is Send <==> known && reading is Ok
            &&& outcome matches HealthOutcome::Send(key, metric) ==> {
                &&& unit == "W"@ ==> key == MetricKey::Health(HealthKey::Power)
                &&& unit == "C"@ ==> key == MetricKey::Health(HealthKey::Temperature)
                &&& unit == "V"@ ==> key == MetricKey::Health(HealthKey::Voltage)
                &&& unit == "RPM"@ ==> key == MetricKey::Health(HealthKey::Rpm)
                &&& unit == "A"@ ==> key == MetricKey::Health(HealthKey::Current)
                &&& metric.counter == reading->Ok_0.counter
                &&& metric.label@.len() == 2
                &&& metric.label@[0].name@ == "hostname"@
                &&& metric.label@[0].value@ == identity@
                &&& metric.label@[1].name@ == "name"@
                &&& metric.label@[1].value@ == state.name@
            }
            &&& outcome matches HealthOutcome::Warn(line) ==> {
                &&& line.level == Level::Warn
                &&& reading matches Ok(number) ==> line.text@ == "Unknown health state: "@ + unit
                    + "="@ + number.text@
                &&& reading matches Err(error) ==> line.text@ == "Cannot parse health state: "@
                    + unit + ":"@ + error@
            }
        }),
{
    let labels = vec![
        create_label_pair("hostname", identity.to_string()),
        create_label_pair("name", state.name),
    ];
    assert(labels_view(labels@) =~= health_labels(identity@, state.name@));
    proof {
        units_are_distinct(latin1(state.unit@), latin1(state.unit@));
    }
    if state.unit.is_empty() {
        return HealthOutcome::Ignore;
    }
    let unit = latin1_text(state.unit.as_slice());
    match (key_of_unit(&unit), reading) {
        (Some(key), Ok(number)) => HealthOutcome::Send(
            MetricKey::Health(key),
            create_metric_value(&labels, number.counter),
        ),
        (None, Ok(number)) => HealthOutcome::Warn(
            LogLine {
                level: Level::Warn,
                text: "Unknown health state: ".to_string().concat(unit.as_str()).concat(
                    "=",
                ).concat(number.text.as_str()),
            },
        ),
        (_, Err(error)) => HealthOutcome::Warn(
            LogLine {
                level: Level::Warn,
                text: "Cannot parse health state: ".to_string().concat(unit.as_str()).concat(
                    ":",
                ).concat(error.as_str()),
            },
        ),
    }
}

/// There are five units, and no two of them stand for the same measure.
pub proof fn units_are_distinct(a: Seq<char>, b: Seq<char>)
    ensures
        unit_key("W"@) == Some(HealthKey::Power),
        unit_key("C"@) == Some(HealthKey::Temperature),
        unit_key("V"@) == Some(HealthKey::Voltage),
        unit_key("RPM"@) == Some(HealthKey::Rpm),
        unit_key("A"@) == Some(HealthKey::Current),
        unit_key(a) is Some <==> a == "W"@ || a == "C"@ || a == "V"@ || a == "RPM"@ || a == "A"@,
        unit_key(a) is Some ==> (unit_key(a) == unit_key(b) <==> a == b),
        unit_key(a) is Some ==> a.len() > 0,
{
    reveal_strlit("W");
    reveal_strlit("C");
    reveal_strlit("V");
    reveal_strlit("RPM");
    reveal_strlit("A");
    assert("W"@[0] == 'W' && "C"@[0] == 'C' && "V"@[0] == 'V' && "RPM"@[0] == 'R' && "A"@[0] == 'A');
}

/// Every measure has a unit.
pub proof fn every_measure_has_a_unit(key: HealthKey)
    ensures
        exists|unit: Seq<char>| #[trigger] unit_key(unit) == Some(key) && unit.len() > 0,
{
    reveal_strlit("W");
    reveal_strlit("C");
    reveal_strlit("V");
    reveal_strlit("RPM");
    reveal_strlit("A");
    assert("W"@[0] == 'W' && "C"@[0] == 'C' && "V"@[0] == 'V' && "RPM"@[0] == 'R' && "A"@[0] == 'A');
    assert(unit_key("W"@) == Some(HealthKey::Power));
    assert(unit_key("C"@) == Some(HealthKey::Temperature));
    assert(unit_key("V"@) == Some(HealthKey::Voltage));
    assert(unit_key("RPM"@) == Some(HealthKey::Rpm));
    assert(unit_key("A"@) == Some(HealthKey::Current));
}

/// A sensor's metric names the device that reports it.
pub proof fn health_metrics_name_their_device(identity: Seq<char>, name: Seq<char>)
    ensures
        names_device(health_labels(identity, name), identity),
{
    assert(health_labels(identity, name)[0] == (LabelView { name: "hostname"@, value: identity }));
}

/// A number in a unit that is known is sent, whatever the number, under the measure of its unit
/// and as it was read.
pub proof fn every_number_in_a_known_unit_is_sent(
    identity: Seq<char>,
    name: Seq<char>,
    unit: Seq<char>,
    reading: Result<Reading, String>,
    key: HealthKey,
)
    requires
        unit_key(unit) == Some(key),
        reading is Ok,
    ensures
        health_outcome(identity, name, unit, reading) matches HealthOutcomeView::Send(
            sent_under,
            metric,
        ) && sent_under == MetricKey::Health(key) && metric.counter == reading->Ok_0.counter
            && metric.label == seq![
            LabelView { name: "hostname"@, value: identity },
            LabelView { name: "name"@, value: name },
        ],
{
    units_are_distinct(unit, unit);
}

/// Nothing else is sent: a state without a unit is passed over in silence, and a number in another
/// unit, as well as what is no number, is warned of.
pub proof fn other_readings_are_not_sent(
    identity: Seq<char>,
    name: Seq<char>,
    unit: Seq<char>,
    reading: Result<Reading, String>,
)
    requires
        unit_key(unit) is None || reading is Err,
    ensures
        unit.len() == 0 ==> health_outcome(identity, name, unit, reading) is Ignore,
        unit.len() > 0 ==> {
            &&& health_outcome(identity, name, unit, reading) matches HealthOutcomeView::Warn(line)
            &&& line.level == Level::Warn
            &&& reading matches Ok(number) ==> line.text == "Unknown health state: "@ + unit + "="@
                + number.text@
            &&& reading matches Err(error) ==> line.text == "Cannot parse health state: "@ + unit
                + ":"@ + error@
        },
{
}

/// The text of a number does not decide what becomes of it: two readings with the same number are
/// sent alike.
pub proof fn sending_goes_by_the_number_alone(
    identity: Seq<char>,
    name: Seq<char>,
    unit: Seq<char>,
    a: Reading,
    b: Reading,
)
    requires
        unit_key(unit) is Some,
        a.counter == b.counter,
    ensures
        health_outcome(identity, name, unit, Ok(a)) == health_outcome(identity, name, unit, Ok(b)),
        health_outcome(identity, name, unit, Ok(a)) is Send,
{
    units_are_distinct(unit, unit);
}

} // verus!
