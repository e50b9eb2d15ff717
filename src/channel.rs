use vstd::prelude::*;
use futures::channel::mpsc::{UnboundedReceiver, UnboundedSender};
use futures::stream::Next;
use crate::event::Event;
use crate::producer::Producer;

verus! {

#[verifier::external_type_specification]
#[verifier::external_body]
#[verifier::reject_recursive_types(T)]
pub struct ExUnboundedReceiver<T>(UnboundedReceiver<T>);

#[verifier::external_type_specification]
#[verifier::external_body]
#[verifier::reject_recursive_types(St)]
pub struct ExNext<'a, St: ?Sized>(Next<'a, St>);

/// Why no event could be taken off the channel.
#[derive(Debug, Clone, Copy, PartialEq, Eq)]
pub enum RecvFailure {
    /// Nothing is queued yet, but the producer side is still there.
    Empty,
    /// Nothing is queued and the producer side is gone: nothing more will come.
    Closed,
}

/// Relies on futures' `mpsc::unbounded`: a new channel without capacity limit.
#[verifier::external_body]
fn unbounded_channel() -> (UnboundedSender<Event>, UnboundedReceiver<Event>) {
    futures::channel::mpsc::unbounded()
}

/// Relies on futures' `UnboundedReceiver::try_recv`: the next queued event,
/// or whether the channel is merely empty or empty and closed. It never waits.
#[verifier::external_body]
fn try_recv_event(rx: &mut UnboundedReceiver<Event>) -> (r: Result<Event, RecvFailure>) {
    match rx.try_recv() {
        Ok(e) => Ok(e),
        Err(futures::channel::mpsc::TryRecvError::Empty) => Err(RecvFailure::Empty),
        Err(futures::channel::mpsc::TryRecvError::Closed) => Err(RecvFailure::Closed),
    }
}

/// Relies on futures' `StreamExt::next`: a future that resolves to the next
/// event, or to `None` once the channel is empty and closed.
#[verifier::external_body]
fn next_event(rx: &mut UnboundedReceiver<Event>) -> Next<'_, UnboundedReceiver<Event>> {
    futures::stream::StreamExt::next(rx)
}

/// Offers each event, once and in order, to the producer endpoint. Forwarding
/// is best effort: an event the channel refuses (its consumer is gone) is
/// skipped and the rest are still offered. Returns how many were queued.
pub fn forward(p: &mut Producer, events: &Vec<Event>) -> (queued: usize)
    ensures
        final(p).offered() == old(p).offered() + events@,
        queued == final(p).accepted() - old(p).accepted(),
        queued <= events@.len(),
{
    let ghost start = *p;
    let mut queued: usize = 0;
    let mut i: usize = 0;
    while i < events.len()
        invariant
            i <= events@.len(),
            queued <= i,
            p.offered() == start.offered() + events@.take(i as int),
            p.accepted() == start.accepted() + queued,
        decreases events@.len() - i,
    {
        if p.send(events[i]) {
            queued = queued + 1;
        }
        proof {
            assert(events@.take(i as int + 1) =~= events@.take(i as int).push(events@[i as int]));
        }
        i = i + 1;
    }
    assert(events@.take(i as int) =~= events@);
    queued
}

/// The event that a non-waiting pull brought, if any: an empty channel and a
/// closed one both give `None`.
pub fn ready_event(pulled: Result<Event, RecvFailure>) -> (r: Option<Event>)
    ensures
        r == (match pulled {
            Ok(e) => Some(e),
            Err(_) => None::<Event>,
        }),
{
    match pulled {
        Ok(e) => Some(e),
        Err(_) => None,
    }
}

/// The consumer side of the capture pipeline: events come out in the order
/// the capture thread queued them.
pub struct Receiver {
    input_receiver: UnboundedReceiver<Event>,
}

/// A fresh dispatch channel: the producer endpoint for the capture thread,
/// with nothing offered yet, and the receiver that owns the consumer endpoint.
pub fn event_channel() -> (r: (Producer, Receiver))
    ensures
        r.0.offered() == Seq::<Event>::empty(),
        r.0.accepted() == 0,
{
    let (tx, rx) = unbounded_channel();
    (Producer::new(tx), Receiver { input_receiver: rx })
}

impl Receiver {
    /// Takes the next queued event without waiting.
    pub fn try_pull(&mut self) -> (r: Result<Event, RecvFailure>) {
        try_recv_event(&mut self.input_receiver)
    }

    /// The next queued event, or `None` at once where nothing is queued,
    /// whether or not more may come.
    pub fn try_get(&mut self) -> (r: Option<Event>) {
        ready_event(try_recv_event(&mut self.input_receiver))
    }

    /// The next event, as a future: awaiting it suspends only the awaiting
    /// task until an event is queued, and it resolves to `None` once the
    /// producer side is gone and everything it queued has been taken. A
    /// caller outside any executor waits for it by blocking on it.
    pub fn get_async(&mut self) -> Next<'_, UnboundedReceiver<Event>> {
        next_event(&mut self.input_receiver)
    }
}

} // verus!
