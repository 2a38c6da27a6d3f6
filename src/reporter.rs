//! Delivery of events from producers to one consumer.
use vstd::prelude::*;

use crate::event::Event;

verus! {

/// The delivery channel is closed: the consumer is gone and the event was not taken.
///
/// The producer decides whether to go on without reporting or to abort.
#[derive(Clone, Copy, Debug, PartialEq, Eq, Structural)]
pub struct ReportError;

/// Accepts events from producers on behalf of a consumer.
///
/// An implementation neither inspects, filters nor transforms the events, and it
/// fails only when its channel is closed for good.
pub trait Reporter {
    fn report_event(&mut self, event: Event) -> Result<(), ReportError>;
}

/// What a [`TestReporter`] holds: the events received so far, in the order they
/// came, and whether the producer side has been closed.
pub struct ReporterState {
    pub received: Seq<Event>,
    pub closed: bool,
}

impl ReporterState {
    /// A reporter that has received nothing and is open.
    pub open spec fn fresh() -> ReporterState {
        ReporterState { received: Seq::empty(), closed: false }
    }

    /// The state after one call of `report_event` with `event`: appended at
    /// the end when open, and nothing changed when closed.
    pub open spec fn after_report(self, event: Event) -> ReporterState {
        if self.closed {
            self
        } else {
            ReporterState { received: self.received.push(event), closed: false }
        }
    }

    /// The state after calls of `report_event` with `events`, in their order.
    pub open spec fn after_reports(self, events: Seq<Event>) -> ReporterState
        decreases events.len(),
    {
        if events.len() == 0 {
            self
        } else {
            self.after_reports(events.drop_last()).after_report(events.last())
        }
    }
}

/// Emitting events one after another on an open reporter keeps each of them,
/// once, in the order of emission, after those it already held; a fresh
/// reporter therefore holds exactly the emitted events, in emission order.
pub proof fn lemma_events_kept_in_emission_order(start: ReporterState, events: Seq<Event>)
    requires
        !start.closed,
    ensures
        start.after_reports(events).received == start.received + events,
        !start.after_reports(events).closed,
        ReporterState::fresh().after_reports(events).received == events,
    decreases events.len(),
{
    if events.len() > 0 {
        lemma_events_kept_in_emission_order(start, events.drop_last());
        assert(start.received + events == (start.received + events.drop_last()).push(events.last()));
    } else {
        assert(start.received + events == start.received);
    }
    if events.len() > 0 {
        lemma_events_kept_in_emission_order(ReporterState::fresh(), events.drop_last());
        assert(events == events.drop_last().push(events.last()));
    }
}

/// A reporter that keeps every event it receives, so that a test can compare
/// them with what a producer was expected to emit.
pub struct TestReporter {
    events: Vec<Event>,
    closed: bool,
}

impl View for TestReporter {
    type V = ReporterState;

    closed spec fn view(&self) -> ReporterState {
        ReporterState { received: self.events@, closed: self.closed }
    }
}

impl TestReporter {
    pub fn new() -> (r: TestReporter)
        ensures
            r@ == ReporterState::fresh(),
    {
        TestReporter { events: Vec::new(), closed: false }
    }

    /// The producer side of this reporter.
    pub fn reporter(&mut self) -> (r: &mut TestReporter)
        ensures
            *r == *old(self),
            *final(r) == *final(self),
    {
        self
    }

    /// Closes the producer side: later events are refused, and those received
    /// stay.
    pub fn disconnect(&mut self)
        ensures
            final(self)@ == (ReporterState { received: old(self)@.received, closed: true }),
    {
        self.closed = true;
    }

    /// Ends the stream and hands out every event received, in the order they
    /// were reported.
    pub fn wait_for_events(self) -> (r: Vec<Event>)
        ensures
            r@ == self@.received,
    {
        self.events
    }
}

impl Default for TestReporter {
    fn default() -> (r: TestReporter)
        ensures
            r@ == ReporterState::fresh(),
    {
        TestReporter::new()
    }
}

impl Reporter for TestReporter {
    /// Appends `event` at the end of the received events, or refuses it with
    /// [`ReportError`] once the producer side is closed.
    fn report_event(&mut self, event: Event) -> (r: Result<(), ReportError>)
        ensures
            r is Ok <==> !old(self)@.closed,
            final(self)@ == old(self)@.after_report(event),
    {
        if self.closed {
            Err(ReportError)
        } else {
            self.events.push(event);
            Ok(())
        }
    }
}

} // verus!
