use vstd::prelude::*;
use crate::channel::forward;
use crate::producer::Producer;
use crate::event::Event;
use crate::report::{decode, decode_spec};

verus! {

/// Message that a window receives once, while it is being created.
pub const WM_CREATE: u32 = 0x0001;
/// Message that carries a handle to a raw input report.
pub const WM_INPUT: u32 = 0x00FF;
/// What the window procedure returns for a raw input message it has handled.
pub const RAW_INPUT_HANDLED: isize = 0;
/// What the raw input query returns where it failed.
pub const QUERY_FAILED: u32 = 0xffff_ffff;
/// What the message retrieval returns for a message to dispatch.
pub const MESSAGE_RETRIEVED: i32 = 1;

/// How the capture window's procedure treats a message.
#[derive(Debug, Clone, Copy, PartialEq, Eq)]
pub enum MessageRoute {
    /// Left to the default handling of an ordinary hidden window; creation is
    /// among these, as it has nothing to set up.
    Default,
    /// Fetched, decoded and forwarded.
    RawInput,
}

pub open spec fn route_spec(msg: u32) -> MessageRoute {
    if msg == WM_INPUT {
        MessageRoute::RawInput
    } else {
        MessageRoute::Default
    }
}

/// Picks the path that a message takes through the window procedure.
pub fn route_message(msg: u32) -> (r: MessageRoute)
    ensures
        r == route_spec(msg),
{
    if msg == WM_INPUT {
        MessageRoute::RawInput
    } else {
        MessageRoute::Default
    }
}

/// First pass of the two-pass report query: where the size query succeeded
/// (`reply` is 0), the length of the buffer to allocate for the report.
pub fn report_buffer_len(reply: u32, size: u32) -> (r: Option<usize>)
    ensures
        r == (if reply == 0 { Some(size as usize) } else { None::<usize> }),
{
    if reply == 0 {
        Some(size as usize)
    } else {
        None
    }
}

/// The events of a fetched report: the second pass returned how many bytes
/// it wrote, and only those are read. A failed fetch, or a count beyond the
/// buffer, gives none.
pub open spec fn fetched_events(reply: u32, b: Seq<u8>) -> Seq<Event> {
    if reply == QUERY_FAILED || reply as int > b.len() {
        seq![]
    } else {
        decode_spec(b.subrange(0, reply as int))
    }
}

/// Where the fetch wrote the whole buffer, a raw input message offers exactly
/// the events that the buffer decodes to; a failed fetch offers none.
pub proof fn lemma_fetched_whole_report(reply: u32, b: Seq<u8>)
    ensures
        reply != QUERY_FAILED && reply as int == b.len() ==> fetched_events(reply, b) == decode_spec(b),
        reply == QUERY_FAILED ==> fetched_events(reply, b) == Seq::<Event>::empty(),
{
    assert(b.subrange(0, b.len() as int) =~= b);
}

/// Second pass of the report query: checks the byte count it returned
/// against the buffer, then decodes what was written.
pub fn raw_input_events(reply: u32, bytes: &[u8]) -> (r: Vec<Event>)
    ensures
        r@ == fetched_events(reply, bytes@),
{
    if reply == QUERY_FAILED || reply as usize > bytes.len() {
        Vec::new()
    } else {
        decode(vstd::slice::slice_subrange(bytes, 0, reply as usize))
    }
}

/// The raw input arm of the window procedure: decodes the fetched report and
/// forwards its events, in order, to the producer endpoint. A refused send is
/// skipped. The OS is told the message was handled whatever happened.
pub fn on_raw_input(p: &mut Producer, reply: u32, bytes: &[u8]) -> (r: isize)
    ensures
        final(p).offered() == old(p).offered() + fetched_events(reply, bytes@),
        r == RAW_INPUT_HANDLED,
{
    let events = raw_input_events(reply, bytes);
    forward(p, &events);
    RAW_INPUT_HANDLED
}

/// Whether the message loop goes on after a retrieval: only while a message
/// came back and the consumer side is still there. The end of the queue, a
/// failed retrieval and a dropped consumer each stop it.
pub fn keep_pumping(reply: i32, consumer_gone: bool) -> (r: bool)
    ensures
        r == (reply == MESSAGE_RETRIEVED && !consumer_gone),
{
    reply == MESSAGE_RETRIEVED && !consumer_gone
}

} // verus!
