//! Whole runs of the sensor-broadcast loop.
//!
//! A run is the list of outcomes that the loop was fed, first to last. The
//! functions here say which phase the loop is in after a run and which call
//! it made at each step; the lemmas state what holds of every run.

use vstd::prelude::*;
use crate::advertisement::wire;
use crate::beacon::{transition, BeaconConfig, Call, Event, HaltReason, Indicator, Phase};
use crate::measurement::quantized_celsius;

verus! {

/// The phase of a loop that started idle and was fed `events`.
pub open spec fn phase_after(config: BeaconConfig, events: Seq<Event>) -> Phase
    decreases events.len(),
{
    if events.len() == 0 {
        Phase::Idle
    } else {
        transition(config, phase_after(config, events.drop_last()), events.last()).0
    }
}

/// The call that the loop made in answer to `events[i]`.
pub open spec fn call_at(config: BeaconConfig, events: Seq<Event>, i: int) -> Call {
    transition(config, phase_after(config, events.take(i)), events[i]).1
}

/// Whether `event` is the outcome that is awaited at place `i` of a run in
/// which nothing fails: first the radio stack comes up, then each call of
/// the cycle is answered in turn.
pub open spec fn awaited(i: int, event: Event) -> bool {
    if i == 0 {
        event == Event::RadioReady
    } else if i % 4 == 1 || i % 4 == 3 {
        event == Event::OutputSet
    } else if i % 4 == 2 {
        event is Measured
    } else {
        event matches Event::Radio(outcome) && outcome.spec_ends_broadcast()
    }
}

/// A run in which nothing fails: every outcome is the awaited one.
pub open spec fn trouble_free(events: Seq<Event>) -> bool {
    forall|i: int| 0 <= i < events.len() ==> awaited(i, #[trigger] events[i])
}

/// The byte that is broadcast for the reading that `event` brought.
pub open spec fn reading(event: Event) -> u8 {
    match event {
        Event::Measured(measurement) => quantized_celsius(measurement.millicelsius() as int) as u8,
        _ => 0,
    }
}

/// The call at place `i` of a trouble-free run: busy, read, idle, submit,
/// and round again.
pub open spec fn cycle_call(config: BeaconConfig, events: Seq<Event>, i: int) -> Call {
    if i % 4 == 0 {
        Call::SetIndicator(Indicator::Busy)
    } else if i % 4 == 1 {
        Call::ReadSensor
    } else if i % 4 == 2 {
        Call::SetIndicator(Indicator::Idle)
    } else {
        Call::Advertise {
            payload: wire(config.records(reading(events[i - 1]))),
            timeout: config.timeout,
        }
    }
}

/// The phase after place `i` of a trouble-free run.
pub open spec fn cycle_phase(events: Seq<Event>, i: int) -> Phase {
    if i % 4 == 0 {
        Phase::Waking
    } else if i % 4 == 1 {
        Phase::Sampling
    } else if i % 4 == 2 {
        Phase::Encoding { temperature: reading(events[i]) }
    } else {
        Phase::Broadcasting
    }
}

/// Feeding one more outcome moves the loop by one transition.
pub proof fn lemma_phase_step(config: BeaconConfig, events: Seq<Event>, i: int)
    requires
        0 <= i < events.len(),
    ensures
        phase_after(config, events.take(i + 1)) == transition(
            config,
            phase_after(config, events.take(i)),
            events[i],
        ).0,
{
    assert(events.take(i + 1).drop_last() =~= events.take(i));
}

/// Cycle sequencing: in a run where nothing fails, the calls are exactly
/// mark busy, read the sensor, mark idle, submit, over and over, and each
/// submission carries the reading taken just before it.
pub proof fn lemma_cycle_order(config: BeaconConfig, events: Seq<Event>, i: int)
    requires
        trouble_free(events),
        0 <= i < events.len(),
    ensures
        call_at(config, events, i) == cycle_call(config, events, i),
        phase_after(config, events.take(i + 1)) == cycle_phase(events, i),
    decreases i,
{
    lemma_phase_step(config, events, i);
    if i > 0 {
        lemma_cycle_order(config, events, i - 1);
    }
}

/// A halted loop stays halted, and answers every outcome with the same
/// halt.
pub proof fn lemma_halt_is_final(config: BeaconConfig, events: Seq<Event>, k: int, j: int)
    requires
        0 <= k <= j < events.len(),
        phase_after(config, events.take(k)) is Halted,
    ensures
        phase_after(config, events.take(j + 1)) == phase_after(config, events.take(k)),
        call_at(config, events, j) == Call::Halt(phase_after(config, events.take(k))->reason),
    decreases j - k,
{
    lemma_phase_step(config, events, j);
    if k < j {
        lemma_halt_is_final(config, events, k, j - 1);
    }
}

/// Fatal halt: once the sensor has failed, the loop makes no call but to
/// halt, so no advertisement is submitted after the failure. The halt names
/// the sensor, unless the loop had halted before for another reason.
pub proof fn lemma_sensor_failure_halts(config: BeaconConfig, events: Seq<Event>, k: int, j: int)
    requires
        0 <= k <= j < events.len(),
        events[k] == Event::SensorFailed,
    ensures
        call_at(config, events, j) is Halt,
        call_at(config, events, j) == call_at(config, events, k),
        phase_after(config, events.take(j + 1)) is Halted,
        !(phase_after(config, events.take(k)) is Halted) ==> call_at(config, events, k)
            == Call::Halt(HaltReason::SensorFailure),
{
    lemma_phase_step(config, events, k);
    if k < j {
        lemma_halt_is_final(config, events, k + 1, j);
    }
}

/// A failure of the radio stack is as final as one of the sensor: from then
/// on the loop makes no call but to halt. The halt names the radio, unless
/// the loop had halted before for another reason.
pub proof fn lemma_radio_failure_halts(config: BeaconConfig, events: Seq<Event>, k: int, j: int)
    requires
        0 <= k <= j < events.len(),
        events[k] matches Event::Radio(outcome) && !outcome.spec_ends_broadcast(),
    ensures
        call_at(config, events, j) is Halt,
        call_at(config, events, j) == call_at(config, events, k),
        phase_after(config, events.take(j + 1)) is Halted,
        !(phase_after(config, events.take(k)) is Halted) ==> call_at(config, events, k)
            == Call::Halt(HaltReason::RadioFailure),
{
    lemma_phase_step(config, events, k);
    if k < j {
        lemma_halt_is_final(config, events, k + 1, j);
    }
}

/// One advertisement at a time: between two submissions the radio stack has
/// reported the end of the first. The loop asks for nothing while an
/// advertisement is on air, and goes on only when told that it ended.
pub proof fn lemma_one_advertisement_at_a_time(
    config: BeaconConfig,
    events: Seq<Event>,
    i: int,
    j: int,
)
    requires
        0 <= i < j < events.len(),
        call_at(config, events, i) is Advertise,
        call_at(config, events, j) is Advertise,
    ensures
        i + 1 < j,
        events[i + 1] matches Event::Radio(outcome) && outcome.spec_ends_broadcast(),
{
    lemma_phase_step(config, events, i);
    lemma_phase_step(config, events, i + 1);
    if i + 1 < j {
        let ended = events[i + 1] matches Event::Radio(outcome) && outcome.spec_ends_broadcast();
        if !ended {
            lemma_halt_is_final(config, events, i + 2, j);
        }
    }
}

/// One read at a time: between two sensor reads the first has returned a
/// reading.
pub proof fn lemma_one_read_at_a_time(config: BeaconConfig, events: Seq<Event>, i: int, j: int)
    requires
        0 <= i < j < events.len(),
        call_at(config, events, i) is ReadSensor,
        call_at(config, events, j) is ReadSensor,
    ensures
        i + 1 < j,
        events[i + 1] is Measured,
{
    lemma_phase_step(config, events, i);
    lemma_phase_step(config, events, i + 1);
    if i + 1 < j && !(events[i + 1] is Measured) {
        lemma_halt_is_final(config, events, i + 2, j);
    }
}

/// The radio driver comes first: nothing is read and nothing is submitted in
/// a run that did not open with the report that the radio stack is up. Such
/// a run halts at its first outcome.
pub proof fn lemma_radio_comes_first(config: BeaconConfig, events: Seq<Event>, i: int)
    requires
        0 <= i < events.len(),
        events[0] != Event::RadioReady,
    ensures
        call_at(config, events, i) is Halt,
{
    lemma_phase_step(config, events, 0);
    if 0 < i {
        lemma_halt_is_final(config, events, 1, i);
    }
}

} // verus!
