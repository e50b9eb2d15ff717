use vstd::prelude::*;
use futures::channel::mpsc::UnboundedSender;
use crate::event::Event;

verus! {

#[verifier::external_type_specification]
#[verifier::external_body]
#[verifier::reject_recursive_types(T)]
pub struct ExUnboundedSender<T>(UnboundedSender<T>);

/// Relies on futures' `UnboundedSender::unbounded_send`: `true` where the
/// event was queued, `false` where the consumer side is gone.
#[verifier::external_body]
fn send_event(tx: &UnboundedSender<Event>, e: Event) -> (queued: bool) {
    tx.unbounded_send(e).is_ok()
}

/// Relies on futures' `UnboundedSender::is_closed`: whether the consumer
/// side is gone, so that no further send can be queued.
#[verifier::external_body]
fn sender_closed(tx: &UnboundedSender<Event>) -> (closed: bool) {
    tx.is_closed()
}

/// The producer endpoint of the dispatch channel. Beside the channel it keeps
/// a ghost log of every event offered to it, in order, and of how many of
/// those the channel accepted.
pub struct Producer {
    tx: UnboundedSender<Event>,
    offered: Ghost<Seq<Event>>,
    accepted: Ghost<nat>,
}

impl Producer {
    /// Wraps a channel's sending end, with nothing offered yet.
    pub fn new(tx: UnboundedSender<Event>) -> (p: Producer)
        ensures
            p.offered() == Seq::<Event>::empty(),
            p.accepted() == 0,
    {
        Producer { tx, offered: Ghost(Seq::empty()), accepted: Ghost(0) }
    }

    /// Every event offered so far, in the order offered.
    pub closed spec fn offered(&self) -> Seq<Event> {
        self.offered@
    }

    /// How many of the offered events the channel queued.
    pub closed spec fn accepted(&self) -> nat {
        self.accepted@
    }

    /// Offers one event to the channel. Returns whether it was queued; it is
    /// refused only where the consumer side is gone.
    pub fn send(&mut self, e: Event) -> (queued: bool)
        ensures
            final(self).offered() == old(self).offered().push(e),
            final(self).accepted() == old(self).accepted() + (if queued { 1nat } else { 0nat }),
    {
        let queued = send_event(&self.tx, e);
        self.offered = Ghost(self.offered@.push(e));
        self.accepted = Ghost(self.accepted@ + if queued { 1nat } else { 0nat });
        queued
    }

    /// Whether the consumer side has been dropped.
    pub fn consumer_gone(&self) -> (gone: bool) {
        sender_closed(&self.tx)
    }
}

} // verus!
