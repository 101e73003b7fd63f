//! Runs of the scheduler: what holds over any sequence of events.

use crate::metric::metrics_of;
use crate::outcome::{aggregated, WriteOutcome};
use crate::reading::{Readiness, Reading};
use crate::scheduler::{expected, step_of, Action, Config, Event, Phase};
use vstd::prelude::*;

verus! {

/// The phase a scheduler is in after it took the events one by one.
pub open spec fn phase_after<V>(config: Config, phase: Phase, events: Seq<Event<V>>) -> Phase
    decreases events.len(),
{
    if events.len() == 0 {
        phase
    } else {
        phase_after(config, step_of(config, phase, events[0]).0, events.drop_first())
    }
}

/// Every event of the run answers what the scheduler asked for just before.
pub open spec fn in_turn<V>(config: Config, phase: Phase, events: Seq<Event<V>>) -> bool
    decreases events.len(),
{
    events.len() == 0 || (expected(phase, events[0]) && in_turn(
        config,
        step_of(config, phase, events[0]).0,
        events.drop_first(),
    ))
}

/// How often the timer fired during the run.
pub open spec fn ticks<V>(events: Seq<Event<V>>) -> nat
    decreases events.len(),
{
    if events.len() == 0 {
        0
    } else {
        (if events[0] is Tick {
            1nat
        } else {
            0nat
        }) + ticks(events.drop_first())
    }
}

/// How many readings the sensor delivered during the run whose readiness the
/// policy admits.
pub open spec fn admitted_readings<V>(config: Config, events: Seq<Event<V>>) -> nat
    decreases events.len(),
{
    if events.len() == 0 {
        0
    } else {
        (if events[0] matches Event::Measured(_, readiness) && config.policy.admits(readiness) {
            1nat
        } else {
            0nat
        }) + admitted_readings(config, events.drop_first())
    }
}

/// How often the scheduler asked for a measurement during the run.
pub open spec fn measurements<V>(config: Config, phase: Phase, events: Seq<Event<V>>) -> nat
    decreases events.len(),
{
    if events.len() == 0 {
        0
    } else {
        (if step_of(config, phase, events[0]).1 is Measure {
            1nat
        } else {
            0nat
        }) + measurements(config, step_of(config, phase, events[0]).0, events.drop_first())
    }
}

/// How often the scheduler asked for a dispatch during the run.
pub open spec fn dispatches<V>(config: Config, phase: Phase, events: Seq<Event<V>>) -> nat
    decreases events.len(),
{
    if events.len() == 0 {
        0
    } else {
        (if step_of(config, phase, events[0]).1 is Dispatch {
            1nat
        } else {
            0nat
        }) + dispatches(config, step_of(config, phase, events[0]).0, events.drop_first())
    }
}

/// How often the scheduler asked for the settings to be applied.
pub open spec fn configurations<V>(config: Config, phase: Phase, events: Seq<Event<V>>) -> nat
    decreases events.len(),
{
    if events.len() == 0 {
        0
    } else {
        (if step_of(config, phase, events[0]).1 is Configure {
            1nat
        } else {
            0nat
        }) + configurations(config, step_of(config, phase, events[0]).0, events.drop_first())
    }
}

/// The scheduler ignores an event exactly if the event does not answer what
/// it asked for, and an ignored event leaves it in its phase.
pub proof fn lemma_ignored_iff_out_of_turn<V>(config: Config, phase: Phase, event: Event<V>)
    ensures
        step_of(config, phase, event).1 is Ignore <==> !expected(phase, event),
        step_of(config, phase, event).1 is Ignore ==> step_of(config, phase, event).0 == phase,
{
}

/// Every tick of the run arrives while the scheduler waits for the timer.
pub open spec fn ticks_awaited<V>(config: Config, phase: Phase, events: Seq<Event<V>>) -> bool
    decreases events.len(),
{
    events.len() == 0 || ((events[0] is Tick ==> phase == Phase::Idle) && ticks_awaited(
        config,
        step_of(config, phase, events[0]).0,
        events.drop_first(),
    ))
}

/// Every reading of the run whose readiness the policy admits arrives while
/// the scheduler waits for a measurement.
pub open spec fn readings_awaited<V>(config: Config, phase: Phase, events: Seq<Event<V>>) -> bool
    decreases events.len(),
{
    events.len() == 0 || ((events[0] matches Event::Measured(_, readiness)
        && config.policy.admits(readiness) ==> phase == Phase::Measuring) && readings_awaited(
        config,
        step_of(config, phase, events[0]).0,
        events.drop_first(),
    ))
}

/// In a run in which every event comes in turn, every tick and every reading
/// arrives while the scheduler waits for it.
pub proof fn lemma_in_turn_awaited<V>(config: Config, phase: Phase, events: Seq<Event<V>>)
    requires
        in_turn(config, phase, events),
    ensures
        ticks_awaited(config, phase, events),
        readings_awaited(config, phase, events),
    decreases events.len(),
{
    if events.len() > 0 {
        lemma_in_turn_awaited(config, step_of(config, phase, events[0]).0, events.drop_first());
    }
}

/// The scheduler never asks for more measurements than the timer fired, and
/// it asks for exactly one measurement per tick, over any number of ticks,
/// exactly if every tick arrives while it waits for the timer.
pub proof fn lemma_one_measurement_per_tick<V>(config: Config, phase: Phase, events: Seq<Event<V>>)
    ensures
        measurements(config, phase, events) <= ticks(events),
        measurements(config, phase, events) == ticks(events)
            <==> ticks_awaited(config, phase, events),
    decreases events.len(),
{
    if events.len() > 0 {
        lemma_one_measurement_per_tick(
            config,
            step_of(config, phase, events[0]).0,
            events.drop_first(),
        );
    }
}

/// The scheduler never asks for more dispatches than readings arrived whose
/// readiness the policy admits, and it asks for exactly one dispatch per
/// such reading, and for none on any other, exactly if every such reading
/// arrives while it waits for a measurement.
pub proof fn lemma_one_dispatch_per_admitted_reading<V>(
    config: Config,
    phase: Phase,
    events: Seq<Event<V>>,
)
    ensures
        dispatches(config, phase, events) <= admitted_readings(config, events),
        dispatches(config, phase, events) == admitted_readings(config, events)
            <==> readings_awaited(config, phase, events),
    decreases events.len(),
{
    if events.len() > 0 {
        lemma_one_dispatch_per_admitted_reading(
            config,
            step_of(config, phase, events[0]).0,
            events.drop_first(),
        );
    }
}

/// What a reading leads to: where the policy admits its readiness, the
/// dispatch of its four metrics; otherwise no dispatch at all, and the
/// scheduler waits for the next tick.
pub proof fn lemma_reading_decides<V>(config: Config, reading: Reading<V>, readiness: Readiness)
    ensures
        config.policy.admits(readiness) ==> step_of(
            config,
            Phase::Measuring,
            Event::Measured(reading, readiness),
        ) == (Phase::Dispatching, Action::Dispatch(metrics_of(reading))),
        !config.policy.admits(readiness) ==> step_of(
            config,
            Phase::Measuring,
            Event::Measured(reading, readiness),
        ) == (Phase::Idle, Action::<V>::AwaitTick(Ok(()))),
{
}

/// A failed write never stops the scheduler: whatever the four outcomes of a
/// dispatch are, the scheduler goes back to waiting for the timer, and hands
/// the reduced result of the dispatch on.
pub proof fn lemma_write_failures_never_halt<V>(config: Config, outcomes: [WriteOutcome; 4])
    ensures
        step_of::<V>(config, Phase::Dispatching, Event::Joined(outcomes)) == (
            Phase::Idle,
            Action::<V>::AwaitTick(aggregated(outcomes)),
        ),
{
}

/// A scheduler that has stopped stays stopped and asks for nothing more.
pub proof fn lemma_halted_is_final<V>(config: Config, events: Seq<Event<V>>)
    ensures
        phase_after(config, Phase::Halted, events) == Phase::Halted,
        measurements(config, Phase::Halted, events) == 0,
        dispatches(config, Phase::Halted, events) == 0,
    decreases events.len(),
{
    if events.len() > 0 {
        lemma_halted_is_final(config, events.drop_first());
    }
}

/// The settings are yet to be applied in a phase.
pub open spec fn unconfigured(phase: Phase) -> bool {
    phase == Phase::Created || phase == Phase::Opening
}

/// Once the scheduler has left the opening of the sensor behind, it never
/// asks for the settings to be applied.
pub proof fn lemma_no_second_configuration<V>(config: Config, phase: Phase, events: Seq<Event<V>>)
    requires
        !unconfigured(phase),
    ensures
        configurations(config, phase, events) == 0,
    decreases events.len(),
{
    if events.len() > 0 {
        lemma_no_second_configuration(
            config,
            step_of(config, phase, events[0]).0,
            events.drop_first(),
        );
    }
}

/// The settings are applied once, and before the first measurement: over any
/// run from the start the scheduler asks for them at most once, and exactly
/// once if it ever asks for a measurement.
pub proof fn lemma_configured_once<V>(config: Config, phase: Phase, events: Seq<Event<V>>)
    requires
        unconfigured(phase),
    ensures
        configurations(config, phase, events) <= 1,
        measurements(config, phase, events) > 0 ==> configurations(config, phase, events) == 1,
    decreases events.len(),
{
    if events.len() > 0 {
        let next = step_of(config, phase, events[0]).0;
        if next == Phase::Halted {
            lemma_halted_is_final(config, events.drop_first());
            lemma_no_second_configuration(config, next, events.drop_first());
        } else if unconfigured(next) {
            lemma_configured_once(config, next, events.drop_first());
        } else {
            lemma_no_second_configuration(config, next, events.drop_first());
        }
    }
}

} // verus!
