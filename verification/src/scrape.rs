//! The course of a scrape: which devices take part in it, and what each of them is asked for.

use vstd::prelude::*;

verus! {

/// How long devices may take to list their leases, from the start of the scrape.
pub const DHCP_TIMEOUT_SECS: u64 = 2;

/// How long a scrape takes.
pub const COLLECT_TIMEOUT_SECS: u64 = 8 + 2;

/// The devices that a connection was made to, with their names, in the order of the attempts.
pub open spec fn connected<D, E>(attempts: Seq<(String, Result<D, E>)>) -> Seq<(D, String)> {
    attempts.filter(|a: (String, Result<D, E>)| a.1 is Ok).map_values(
        |a: (String, Result<D, E>)| (a.1->Ok_0, a.0),
    )
}

/// Notes the outcome of an attempt to connect to a device. A device that cannot be reached takes
/// no part in the scrape; the reason is handed back.
pub fn note_connection<D, E>(
    devices: &mut Vec<(D, String)>,
    name: String,
    outcome: Result<D, E>,
) -> (failure: Option<E>)
    ensures
        match outcome {
            Ok(device) => failure is None && final(devices)@ == old(devices)@.push((device, name)),
            Err(error) => failure == Some(error) && final(devices)@ == old(devices)@,
        },
{
    match outcome {
        Ok(device) => {
            devices.push((device, name));
            None
        },
        Err(error) => Some(error),
    }
}

/// One more attempt leaves the devices of the earlier ones as they are, and adds its own device if
/// it succeeded.
pub proof fn connected_after_attempt<D, E>(
    attempts: Seq<(String, Result<D, E>)>,
    name: String,
    outcome: Result<D, E>,
)
    ensures
        connected(attempts.push((name, outcome))) == match outcome {
            Ok(device) => connected(attempts).push((device, name)),
            Err(_) => connected(attempts),
        },
{
    reveal(Seq::filter);
    assert(attempts.push((name, outcome)).drop_last() =~= attempts);
    assert(connected(attempts.push((name, outcome))) =~= match outcome {
        Ok(device) => connected(attempts).push((device, name)),
        Err(_) => connected(attempts),
    });
}

/// The name by which a device's metrics are labelled: what the device calls itself, nothing where
/// it has no name. A device that does not answer is left out of the scrape.
pub fn device_identity<E>(fetched: Result<Option<String>, E>) -> (identity: Result<String, E>)
    ensures
        match fetched {
            Ok(Some(name)) => identity == Ok::<String, E>(name),
            Ok(None) => identity matches Ok(name) && name@ == Seq::<char>::empty(),
            Err(error) => identity == Err::<String, E>(error),
        },
{
    match fetched {
        Ok(Some(name)) => Ok(name),
        Ok(None) => Ok(String::new()),
        Err(error) => Err(error),
    }
}

/// What a device is asked for.
#[derive(Debug, Copy, Clone, PartialEq, Eq, Structural)]
pub enum Step {
    Capsman,
    Wifi,
    Health,
    Ethernet,
}

/// The order in which a device is asked.
pub open spec fn steps() -> Seq<Step> {
    seq![Step::Capsman, Step::Wifi, Step::Health, Step::Ethernet]
}

/// The place of `step` in [`steps`].
pub open spec fn step_index(step: Step) -> int {
    match step {
        Step::Capsman => 0,
        Step::Wifi => 1,
        Step::Health => 2,
        Step::Ethernet => 3,
    }
}

/// What a device is asked for after `step`.
pub open spec fn step_after(step: Step, succeeded: bool) -> Option<Step> {
    if succeeded && step_index(step) + 1 < steps().len() {
        Some(steps()[step_index(step) + 1])
    } else {
        None
    }
}

/// What a device is asked for first.
pub fn first_step() -> (step: Step)
    ensures
        step == steps().first(),
        step == Step::Capsman,
{
    Step::Capsman
}

/// What a device is asked for next. After a step that failed, and after the last one, it is asked
/// for nothing more.
pub fn next_step(step: Step, succeeded: bool) -> (next: Option<Step>)
    ensures
        next == step_after(step, succeeded),
        !succeeded ==> next is None,
        succeeded ==> next == match step {
            Step::Capsman => Some(Step::Wifi),
            Step::Wifi => Some(Step::Health),
            Step::Health => Some(Step::Ethernet),
            Step::Ethernet => None,
        },
{
    if !succeeded {
        return None;
    }
    match step {
        Step::Capsman => Some(Step::Wifi),
        Step::Wifi => Some(Step::Health),
        Step::Health => Some(Step::Ethernet),
        Step::Ethernet => None,
    }
}

/// What a device is asked for, from `step` on, if the steps end as `outcomes` tells.
pub open spec fn asked(step: Step, outcomes: Seq<bool>) -> Seq<Step>
    decreases outcomes.len(),
{
    if outcomes.len() == 0 {
        seq![step]
    } else {
        match step_after(step, outcomes[0]) {
            Some(next) => seq![step] + asked(next, outcomes.drop_first()),
            None => seq![step],
        }
    }
}

/// A device is asked in the fixed order, and goes from one step to the next only if the former
/// succeeded. If all steps succeed, none is left out.
pub proof fn device_is_asked_in_order(outcomes: Seq<bool>)
    ensures
        asked(steps().first(), outcomes).is_prefix_of(steps()),
        forall|i: int|
            0 <= i < asked(steps().first(), outcomes).len() - 1 ==> #[trigger] outcomes[i],
        outcomes.len() >= 3 && outcomes[0] && outcomes[1] && outcomes[2] ==> asked(
            steps().first(),
            outcomes,
        ) == steps(),
{
    reveal_with_fuel(asked, 4);
    let taken = asked(steps().first(), outcomes);
    let one = outcomes.drop_first();
    let two = one.drop_first();
    let three = two.drop_first();
    if outcomes.len() > 0 && outcomes[0] {
        assert(one.len() > 0 ==> one[0] == outcomes[1]);
        if one.len() > 0 && one[0] {
            assert(two.len() > 0 ==> two[0] == outcomes[2]);
            if two.len() > 0 && two[0] {
                assert(asked(Step::Ethernet, three) =~= seq![Step::Ethernet]);
                assert(taken =~= steps());
            } else {
                assert(taken =~= steps().take(3));
            }
        } else {
            assert(taken =~= steps().take(2));
        }
    } else {
        assert(taken =~= steps().take(1));
    }
}

/// A failed step has no successor. After a step that succeeded comes another one, until the ports
/// were asked for; no step comes twice.
pub proof fn steps_follow_each_other(step: Step, other: Step)
    ensures
        step_after(step, false) is None,
        step_after(step, true) is None <==> step == Step::Ethernet,
        step_after(step, true) is Some && step_after(step, true) == step_after(other, true)
            ==> step == other,
        step_after(step, true) != Some(steps().first()),
        step_after(Step::Capsman, true) == Some(Step::Wifi),
        step_after(Step::Wifi, true) == Some(Step::Health),
        step_after(Step::Health, true) == Some(Step::Ethernet),
{
}

} // verus!
