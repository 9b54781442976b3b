//! What a message means to a client: a command, a reply, or a change of the
//! connection.

use crate::command::{
    command_forms_of, command_of, forms, opt_command_view, Command, CommandView,
};
use crate::grammar::{Parts};
use crate::message::Message;
use crate::reply::{opt_reply_view, reply_form, reply_of, Reply, ReplyView};
use crate::text::{Form, Text, TextSlice};
use vstd::prelude::*;

verus! {

/// An event, with texts of type `T` and lists of type `L`.
#[derive(Debug, Clone, PartialEq)]
pub enum Event<T, L> {
    /// A command arrived.
    Command(Command<T, L>),
    /// A numeric reply arrived.
    Reply(Reply<T>),
    /// The connection was opened.
    Connected,
    /// The connection was closed.
    Disconnected,
}

/// An event whose texts are borrowed from a message.
pub type BorrowedEvent<'a> = Event<TextSlice<'a>, Vec<TextSlice<'a>>>;

/// An event that owns its texts.
pub type OwnedEvent = Event<Text, Vec<Text>>;

/// An event as byte sequences.
pub type EventView = Event<Seq<u8>, Seq<Seq<u8>>>;

impl<T: View<V = Seq<u8>>> View for Event<T, Vec<T>> {
    type V = EventView;

    /// The event with each text replaced by its bytes.
    open spec fn view(&self) -> EventView {
        match *self {
            Event::Command(c) => Event::Command(c@),
            Event::Reply(r) => Event::Reply(r@),
            Event::Connected => Event::Connected,
            Event::Disconnected => Event::Disconnected,
        }
    }
}

/// The view of an optional event.
pub open spec fn opt_event_view<T: View<V = Seq<u8>>>(o: Option<Event<T, Vec<T>>>) -> Option<
    EventView,
> {
    match o {
        Some(e) => Some(e@),
        None => None,
    }
}

/// The event that the parts of a message stand for: the command they carry;
/// if they carry none, the reply; if they carry neither, nothing.
pub open spec fn event_of(p: Parts) -> Option<EventView> {
    match command_of(p) {
        Some(c) => Some(Event::Command(c)),
        None => match reply_of(p) {
            Some(r) => Some(Event::Reply(r)),
            None => None,
        },
    }
}

/// Whether two events have texts of the same forms: where the one has raw
/// bytes, so has the other, and where the one has a string, so has the
/// other.
pub open spec fn same_forms<T: Form, U: Form>(a: Event<T, Vec<T>>, b: Event<U, Vec<U>>) -> bool {
    match (a, b) {
        (Event::Command(c), Event::Command(d)) => forms(c) == forms(d),
        (Event::Reply(r), Event::Reply(q)) => reply_form(r) == reply_form(q),
        _ => true,
    }
}

impl<'a> Event<TextSlice<'a>, Vec<TextSlice<'a>>> {
    /// Classifies a message: as a command first, then as a reply; a message
    /// that is neither gives `None`. The texts of the event are slices of
    /// the message, in the form of the parameters they are taken from.
    pub fn classify(msg: &'a Message) -> (e: Option<BorrowedEvent<'a>>)
        ensures
            opt_event_view(e) == event_of(msg@),
            match e {
                Some(Event::Command(c)) => Some(forms(c)) == command_forms_of(
                    msg@,
                    msg.element_forms(),
                ),
                Some(Event::Reply(r)) => reply_form(r) matches Some(raw) ==> raw
                    == msg.element_forms().last(),
                _ => true,
            },
    {
        match Command::from_message(msg) {
            Some(c) => Some(Event::Command(c)),
            None => match Reply::from_message(msg) {
                Some(r) => Some(Event::Reply(r)),
                None => None,
            },
        }
    }

    /// The same event with texts of its own, which no longer borrow from
    /// the message.
    pub fn to_static(&self) -> (e: OwnedEvent)
        ensures
            e@ == self@,
            same_forms(e, *self),
    {
        match self {
            Event::Command(c) => Event::Command(c.to_owned()),
            Event::Reply(r) => Event::Reply(r.to_owned()),
            Event::Connected => Event::Connected,
            Event::Disconnected => Event::Disconnected,
        }
    }
}

/// Classification is a function of the message: whatever two classifications
/// of one message return, they return the same event.
pub proof fn lemma_classification_repeats(msg: Message, first: Option<EventView>, second: Option<EventView>)
    requires
        first == event_of(msg@),
        second == event_of(msg@),
    ensures
        first == second,
{
}

/// Classification looks at the parts of a message only: two messages with
/// the same prefix, command word and parameters are the same event, wherever
/// those parts lie in their lines.
pub proof fn lemma_classification_by_parts(a: Message, b: Message)
    requires
        a@ == b@,
    ensures
        event_of(a@) == event_of(b@),
{
}

/// A message that is classified as a reply carries no command.
pub proof fn lemma_command_first(p: Parts)
    ensures
        event_of(p) matches Some(Event::Reply(_)) ==> command_of(p) is None,
        command_of(p) matches Some(c) ==> event_of(p) == Some(Event::<Seq<u8>, Seq<Seq<u8>>>::Command(c)),
{
}

} // verus!
