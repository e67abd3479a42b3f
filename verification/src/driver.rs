//! The stream driver: pairs each sample with the one before it.
//!
//! The driver does no waiting and no output of its own. Whoever owns the
//! stream hands it one event at a time and carries out the action it answers
//! with.

use vstd::prelude::*;
use crate::metrics::{handle_stat, metrics_of, DerivedMetrics};
use crate::sample::RawSample;

verus! {

/// What the driver remembers between two events.
#[derive(Clone, Debug, PartialEq, Eq)]
pub enum Driver {
    /// No sample has arrived yet.
    Empty,
    /// The latest sample, kept to be compared with the next one.
    HasPrevious(RawSample),
    /// The stream has ended or failed.
    Terminated,
}

/// What the source of samples can deliver. `E` is the source's error.
#[derive(Clone, Debug, PartialEq, Eq)]
pub enum Event<E> {
    /// The next sample.
    Sample(RawSample),
    /// The stream has ended.
    Closed,
    /// The stream has failed.
    Failed(E),
}

/// What the owner of the stream is to do after an event.
#[derive(Clone, Debug, PartialEq, Eq)]
pub enum Action<E> {
    /// Nothing; wait for the next event.
    Idle,
    /// Hand this record on, then wait for the next event.
    Emit(DerivedMetrics),
    /// Stop: the stream has ended.
    Finish,
    /// Stop and report the source's error, which is passed on as it came.
    Fail(E),
}

/// The state after `event` arrives in `state`.
pub open spec fn next_state<E>(state: Driver, event: Event<E>) -> Driver {
    match state {
        Driver::Terminated => Driver::Terminated,
        _ => match event {
            Event::Sample(sample) => Driver::HasPrevious(sample),
            _ => Driver::Terminated,
        },
    }
}

/// The action that `event` calls for in `state`.
pub open spec fn action_of<E>(state: Driver, event: Event<E>) -> Action<E> {
    match state {
        Driver::Terminated => Action::Idle,
        Driver::Empty => match event {
            Event::Sample(_) => Action::Idle,
            Event::Closed => Action::Finish,
            Event::Failed(error) => Action::Fail(error),
        },
        Driver::HasPrevious(previous) => match event {
            Event::Sample(sample) => Action::Emit(metrics_of(sample, previous)),
            Event::Closed => Action::Finish,
            Event::Failed(error) => Action::Fail(error),
        },
    }
}

/// The state after all of `events` have arrived, in order, in `state`.
pub open spec fn run<E>(state: Driver, events: Seq<Event<E>>) -> Driver
    decreases events.len(),
{
    if events.len() == 0 {
        state
    } else {
        next_state(run(state, events.drop_last()), events.last())
    }
}

/// The records emitted while `events` arrive, in order, in `state`.
pub open spec fn emitted<E>(state: Driver, events: Seq<Event<E>>) -> Seq<DerivedMetrics>
    decreases events.len(),
{
    if events.len() == 0 {
        Seq::empty()
    } else {
        let before = emitted(state, events.drop_last());
        match action_of(run(state, events.drop_last()), events.last()) {
            Action::Emit(metrics) => before.push(metrics),
            _ => before,
        }
    }
}

/// The events of a stream that delivers `samples` and nothing else.
pub open spec fn sample_events<E>(samples: Seq<RawSample>) -> Seq<Event<E>> {
    Seq::new(samples.len(), |i: int| Event::Sample(samples[i]))
}

impl Driver {
    /// A driver that has seen no sample.
    pub fn new() -> (driver: Driver)
        ensures
            driver == Driver::Empty,
    {
        Driver::Empty
    }

    /// Takes one event. The first sample is kept and nothing is emitted; each
    /// later sample is compared with the one kept, and takes its place. The
    /// end of the stream and a failure both terminate the driver, after
    /// which every event is answered with `Idle`.
    pub fn step<E>(self, event: Event<E>) -> (result: (Driver, Action<E>))
        ensures
            result.0 == next_state(self, event),
            result.1 == action_of(self, event),
    {
        match self {
            Driver::Terminated => (Driver::Terminated, Action::Idle),
            Driver::Empty => match event {
                Event::Sample(sample) => (Driver::HasPrevious(sample), Action::Idle),
                Event::Closed => (Driver::Terminated, Action::Finish),
                Event::Failed(error) => (Driver::Terminated, Action::Fail(error)),
            },
            Driver::HasPrevious(previous) => match event {
                Event::Sample(sample) => {
                    let metrics = handle_stat(&sample, &previous);
                    (Driver::HasPrevious(sample), Action::Emit(metrics))
                },
                Event::Closed => (Driver::Terminated, Action::Finish),
                Event::Failed(error) => (Driver::Terminated, Action::Fail(error)),
            },
        }
    }
}

/// A stream of `n` samples has `n - 1` records emitted, none if `n` is zero:
/// the record at place `i` is that of sample `i + 1` against sample `i`.
/// After it the driver holds the last sample.
pub proof fn lemma_stream_of_samples<E>(samples: Seq<RawSample>)
    ensures
        samples.len() == 0 ==> run(Driver::Empty, sample_events::<E>(samples)) == Driver::Empty,
        samples.len() >= 1 ==> run(Driver::Empty, sample_events::<E>(samples))
            == Driver::HasPrevious(samples.last()),
        emitted(Driver::Empty, sample_events::<E>(samples)).len() == if samples.len() == 0 {
            0
        } else {
            samples.len() - 1
        },
        forall|i: int|
            0 <= i < samples.len() - 1 ==> #[trigger] emitted(
                Driver::Empty,
                sample_events::<E>(samples),
            )[i] == metrics_of(samples[i + 1], samples[i]),
    decreases samples.len(),
{
    if samples.len() > 0 {
        let events = sample_events::<E>(samples);
        assert(events.drop_last() =~= sample_events::<E>(samples.drop_last()));
        assert(events.last() == Event::<E>::Sample(samples.last()));
        lemma_stream_of_samples::<E>(samples.drop_last());
    }
}

/// A terminated driver stays terminated and emits nothing, whatever arrives.
pub proof fn lemma_terminated_is_silent<E>(events: Seq<Event<E>>)
    ensures
        run(Driver::Terminated, events) == Driver::Terminated,
        emitted(Driver::Terminated, events).len() == 0,
    decreases events.len(),
{
    if events.len() > 0 {
        lemma_terminated_is_silent(events.drop_last());
    }
}

/// The end of the stream and a failure emit nothing and terminate the
/// driver, whatever state it was in.
pub proof fn lemma_end_emits_nothing<E>(state: Driver, events: Seq<Event<E>>, end: Event<E>)
    requires
        !(end is Sample),
    ensures
        run(state, events.push(end)) == Driver::Terminated,
        emitted(state, events.push(end)) == emitted(state, events),
{
    assert(events.push(end).drop_last() =~= events);
}

} // verus!
