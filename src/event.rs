//! The unit of reporting: every outcome that an operation can report, in one envelope.
use vstd::prelude::*;

use crate::verify_output::VerifyOutput;

verus! {

/// Every kind of fact that an operation can report; one variant per operation.
#[derive(Debug)]
pub enum Message {
    /// The outcome of a toolchain compatibility check.
    Verify(VerifyOutput),
}

impl Message {
    /// Whether two messages are of the same kind, with outcomes that are the same.
    pub open spec fn same_as(&self, other: &Message) -> bool {
        match (self, other) {
            (Message::Verify(a), Message::Verify(b)) => a.same_as(b),
        }
    }
}

impl PartialEq for Message {
    fn eq(&self, other: &Message) -> (r: bool)
        ensures
            r == self.same_as(other),
    {
        match (self, other) {
            (Message::Verify(a), Message::Verify(b)) => a.eq(b),
        }
    }
}

impl vstd::std_specs::cmp::PartialEqSpecImpl for Message {
    open spec fn obeys_eq_spec() -> bool {
        true
    }

    open spec fn eq_spec(&self, other: &Message) -> bool {
        self.same_as(other)
    }
}

impl Clone for Message {
    fn clone(&self) -> (r: Message)
        ensures
            r == *self,
    {
        match self {
            Message::Verify(output) => Message::Verify(output.clone()),
        }
    }
}

/// The envelope in which a [`Message`] travels from a producer to a reporter.
///
/// An event is built once, when an operation concludes, and not changed
/// afterwards; two events are equal when their messages are.
#[derive(Debug)]
pub struct Event {
    message: Message,
}

impl View for Event {
    type V = Message;

    /// The message that the event carries.
    closed spec fn view(&self) -> Message {
        self.message
    }
}

impl Event {
    pub fn new(message: Message) -> (r: Event)
        ensures
            r@ == message,
    {
        Event { message }
    }

    pub fn message(&self) -> (r: &Message)
        ensures
            *r == self@,
    {
        &self.message
    }

    pub fn into_message(self) -> (r: Message)
        ensures
            r == self@,
    {
        self.message
    }
}

impl PartialEq for Event {
    fn eq(&self, other: &Event) -> (r: bool)
        ensures
            r == self@.same_as(&other@),
    {
        self.message.eq(&other.message)
    }
}

impl vstd::std_specs::cmp::PartialEqSpecImpl for Event {
    open spec fn obeys_eq_spec() -> bool {
        true
    }

    open spec fn eq_spec(&self, other: &Event) -> bool {
        self@.same_as(&other@)
    }
}

impl Clone for Event {
    fn clone(&self) -> (r: Event)
        ensures
            r == *self,
    {
        Event { message: self.message.clone() }
    }
}

impl From<Message> for Event {
    fn from(message: Message) -> (r: Event)
        ensures
            r@ == message,
    {
        Event::new(message)
    }
}

impl vstd::std_specs::convert::FromSpecImpl<Message> for Event {
    open spec fn obeys_from_spec() -> bool {
        true
    }

    closed spec fn from_spec(message: Message) -> Event {
        Event { message }
    }
}

impl From<VerifyOutput> for Event {
    fn from(output: VerifyOutput) -> (r: Event)
        ensures
            r@ == Message::Verify(output),
    {
        Event::new(Message::Verify(output))
    }
}

impl vstd::std_specs::convert::FromSpecImpl<VerifyOutput> for Event {
    open spec fn obeys_from_spec() -> bool {
        true
    }

    closed spec fn from_spec(output: VerifyOutput) -> Event {
        Event { message: Message::Verify(output) }
    }
}

} // verus!
