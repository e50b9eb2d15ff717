use vstd::prelude::*;
use crate::event::{Event, Input, KeyState};

verus! {

/// Device type of a report that a mouse sent.
pub const DEVICE_MOUSE: u32 = 0;
/// Device type of a report that a keyboard sent.
pub const DEVICE_KEYBOARD: u32 = 1;

/// Keyboard transition flag: the key was pressed.
pub const KEY_MAKE: u16 = 0;
/// Keyboard transition flag: the key was released.
pub const KEY_BREAK: u16 = 1;

/// Length of a mouse report's payload after the header.
pub const MOUSE_PAYLOAD_LEN: usize = 24;
/// Length of a keyboard report's payload after the header.
pub const KEYBOARD_PAYLOAD_LEN: usize = 16;

/// Number of button-transition bits that a mouse report can carry.
pub const MOUSE_TRANSITION_BITS: u16 = 10;

/// Virtual-key codes of the five mouse buttons, in the order of their bits.
pub const VK_LBUTTON: i32 = 1;
pub const VK_RBUTTON: i32 = 2;
pub const VK_MBUTTON: i32 = 4;
pub const VK_XBUTTON1: i32 = 5;
pub const VK_XBUTTON2: i32 = 6;

/// The part of a raw report that decoding reads.
#[derive(Debug, Clone, Copy, PartialEq, Eq)]
pub enum RawReport {
    Keyboard { flags: u16, vkey: u16 },
    Mouse { button_flags: u16 },
    Other { device_type: u32 },
}

/// Size of a pointer-sized field of the report header.
pub open spec fn word_len() -> nat {
    vstd::layout::size_of::<usize>()
}

/// Length of the report header: type, size, device handle and parameter.
pub open spec fn header_len() -> nat {
    8 + 2 * word_len()
}

pub open spec fn le_u16(b: Seq<u8>, at: int) -> u16 {
    (b[at] as int + 256 * b[at + 1] as int) as u16
}

pub open spec fn le_u32(b: Seq<u8>, at: int) -> u32 {
    (b[at] as int + 256 * b[at + 1] as int + 65536 * b[at + 2] as int + 16777216 * b[at + 3] as int) as u32
}

/// What a report's bytes say, or `None` where they are too short for the
/// whole payload of its device type.
pub open spec fn parse_spec(b: Seq<u8>) -> Option<RawReport> {
    let h = header_len() as int;
    if b.len() < h {
        None
    } else {
        let device_type = le_u32(b, 0);
        if device_type == DEVICE_MOUSE {
            if b.len() < h + MOUSE_PAYLOAD_LEN {
                None
            } else {
                Some(RawReport::Mouse { button_flags: le_u16(b, h + 4) })
            }
        } else if device_type == DEVICE_KEYBOARD {
            if b.len() < h + KEYBOARD_PAYLOAD_LEN {
                None
            } else {
                Some(RawReport::Keyboard { flags: le_u16(b, h + 2), vkey: le_u16(b, h + 6) })
            }
        } else {
            Some(RawReport::Other { device_type })
        }
    }
}

/// Whether bit `i` of a mouse report's button flags is set.
pub open spec fn has_bit(flags: u16, i: u16) -> bool {
    flags & (1u16 << i) != 0u16
}

/// Virtual-key code of the button whose transitions sit at bits `2k` and `2k + 1`.
pub open spec fn mouse_button(k: int) -> i32 {
    if k == 0 {
        VK_LBUTTON
    } else if k == 1 {
        VK_RBUTTON
    } else if k == 2 {
        VK_MBUTTON
    } else if k == 3 {
        VK_XBUTTON1
    } else {
        VK_XBUTTON2
    }
}

/// The event that bit `i` of a mouse report stands for: even bits press a
/// button, odd bits release it.
pub open spec fn mouse_transition(i: int) -> Event {
    (Input::Mouse(mouse_button(i / 2)), if i % 2 == 0 { KeyState::Down } else { KeyState::Up })
}

/// Events for the set bits among the first `n`, lowest bit first.
pub open spec fn mouse_events_upto(flags: u16, n: nat) -> Seq<Event>
    decreases n,
{
    if n == 0 {
        seq![]
    } else {
        let prev = mouse_events_upto(flags, (n - 1) as nat);
        if has_bit(flags, (n - 1) as u16) {
            prev.push(mouse_transition(n - 1))
        } else {
            prev
        }
    }
}

pub open spec fn mouse_events(flags: u16) -> Seq<Event> {
    mouse_events_upto(flags, MOUSE_TRANSITION_BITS as nat)
}

pub open spec fn keyboard_events(flags: u16, vkey: u16) -> Seq<Event> {
    if flags == KEY_MAKE {
        seq![(Input::KeyBoard(vkey as i32), KeyState::Down)]
    } else if flags == KEY_BREAK {
        seq![(Input::KeyBoard(vkey as i32), KeyState::Up)]
    } else {
        seq![]
    }
}

/// The events that one report decodes to.
pub open spec fn report_events(r: RawReport) -> Seq<Event> {
    match r {
        RawReport::Keyboard { flags, vkey } => keyboard_events(flags, vkey),
        RawReport::Mouse { button_flags } => mouse_events(button_flags),
        RawReport::Other { .. } => seq![],
    }
}

/// The events that a report's bytes decode to; none where the bytes are malformed.
pub open spec fn decode_spec(b: Seq<u8>) -> Seq<Event> {
    match parse_spec(b) {
        Some(r) => report_events(r),
        None => seq![],
    }
}

fn read_u16(b: &[u8], at: usize) -> (r: u16)
    requires
        at + 2 <= b@.len(),
    ensures
        r == le_u16(b@, at as int),
{
    b[at] as u16 + b[at + 1] as u16 * 256
}

fn read_u32(b: &[u8], at: usize) -> (r: u32)
    requires
        at + 4 <= b@.len(),
    ensures
        r == le_u32(b@, at as int),
{
    b[at] as u32 + b[at + 1] as u32 * 256 + b[at + 2] as u32 * 65536 + b[at + 3] as u32 * 16777216
}

/// Reads the device type and the transition fields out of a report, after
/// checking that its bytes hold the header and the whole payload of its
/// device type.
pub fn parse_report(b: &[u8]) -> (r: Option<RawReport>)
    ensures
        r == parse_spec(b@),
{
    broadcast use vstd::layout::layout_of_primitives;
    let word = core::mem::size_of::<usize>();
    assert(word == 4 || word == 8);
    let h = 8 + 2 * word;
    if b.len() < h {
        return None;
    }
    let device_type = read_u32(b, 0);
    if device_type == DEVICE_MOUSE {
        if b.len() < h + MOUSE_PAYLOAD_LEN {
            None
        } else {
            Some(RawReport::Mouse { button_flags: read_u16(b, h + 4) })
        }
    } else if device_type == DEVICE_KEYBOARD {
        if b.len() < h + KEYBOARD_PAYLOAD_LEN {
            None
        } else {
            Some(RawReport::Keyboard { flags: read_u16(b, h + 2), vkey: read_u16(b, h + 6) })
        }
    } else {
        Some(RawReport::Other { device_type })
    }
}

fn mouse_transition_at(i: u16) -> (r: Event)
    requires
        i < MOUSE_TRANSITION_BITS,
    ensures
        r == mouse_transition(i as int),
{
    let button = if i / 2 == 0 {
        VK_LBUTTON
    } else if i / 2 == 1 {
        VK_RBUTTON
    } else if i / 2 == 2 {
        VK_MBUTTON
    } else if i / 2 == 3 {
        VK_XBUTTON1
    } else {
        VK_XBUTTON2
    };
    let state = if i % 2 == 0 { KeyState::Down } else { KeyState::Up };
    (Input::Mouse(button), state)
}

/// Every transition that a mouse report's flags carry, lowest bit first.
pub fn decode_mouse(button_flags: u16) -> (r: Vec<Event>)
    ensures
        r@ == mouse_events(button_flags),
{
    let mut out: Vec<Event> = Vec::new();
    let mut i: u16 = 0;
    while i < MOUSE_TRANSITION_BITS
        invariant
            i <= MOUSE_TRANSITION_BITS,
            out@ == mouse_events_upto(button_flags, i as nat),
        decreases MOUSE_TRANSITION_BITS - i,
    {
        if button_flags & (1u16 << i) != 0 {
            out.push(mouse_transition_at(i));
        }
        i = i + 1;
    }
    out
}

/// The transition that a keyboard report carries, if its flag names one.
pub fn decode_keyboard(flags: u16, vkey: u16) -> (r: Vec<Event>)
    ensures
        r@ == keyboard_events(flags, vkey),
{
    let mut out: Vec<Event> = Vec::new();
    if flags == KEY_MAKE {
        out.push((Input::KeyBoard(vkey as i32), KeyState::Down));
    } else if flags == KEY_BREAK {
        out.push((Input::KeyBoard(vkey as i32), KeyState::Up));
    }
    out
}

/// The events that one parsed report carries.
pub fn decode_report(r: RawReport) -> (out: Vec<Event>)
    ensures
        out@ == report_events(r),
{
    match r {
        RawReport::Keyboard { flags, vkey } => decode_keyboard(flags, vkey),
        RawReport::Mouse { button_flags } => decode_mouse(button_flags),
        RawReport::Other { .. } => Vec::new(),
    }
}

/// Decodes a raw report's bytes into events; malformed or unknown reports
/// give none.
pub fn decode(b: &[u8]) -> (out: Vec<Event>)
    ensures
        out@ == decode_spec(b@),
{
    match parse_report(b) {
        Some(r) => decode_report(r),
        None => Vec::new(),
    }
}

/// A keyboard report that signals a press decodes to exactly one press of
/// its key, and the matching release report to exactly one release.
pub proof fn lemma_keyboard_press_release(b: Seq<u8>, vkey: u16)
    ensures
        parse_spec(b) == Some(RawReport::Keyboard { flags: KEY_MAKE, vkey })
            ==> decode_spec(b) == seq![(Input::KeyBoard(vkey as i32), KeyState::Down)],
        parse_spec(b) == Some(RawReport::Keyboard { flags: KEY_BREAK, vkey })
            ==> decode_spec(b) == seq![(Input::KeyBoard(vkey as i32), KeyState::Up)],
{
}

proof fn lemma_left_right_bit(flags: u16, i: u16)
    requires
        flags & 0x3ffu16 == 0x5u16,
        i < MOUSE_TRANSITION_BITS,
    ensures
        has_bit(flags, i) == (i == 0 || i == 2),
{
    assert((flags & (1u16 << i) != 0u16) == (i == 0 || i == 2)) by (bit_vector)
        requires
            flags & 0x3ffu16 == 0x5u16,
            i < 10u16,
    ;
}

proof fn lemma_left_right_upto(flags: u16, n: nat)
    requires
        flags & 0x3ffu16 == 0x5u16,
        n <= MOUSE_TRANSITION_BITS,
    ensures
        mouse_events_upto(flags, n) == (if n == 0 {
            Seq::<Event>::empty()
        } else if n <= 2 {
            seq![mouse_transition(0)]
        } else {
            seq![mouse_transition(0), mouse_transition(2)]
        }),
    decreases n,
{
    if n > 0 {
        lemma_left_right_upto(flags, (n - 1) as nat);
        lemma_left_right_bit(flags, (n - 1) as u16);
        assert(mouse_events_upto(flags, n) =~= (if n <= 2 {
            seq![mouse_transition(0)]
        } else {
            seq![mouse_transition(0), mouse_transition(2)]
        }));
    }
}

/// A mouse report whose transition bits are exactly "left down" and "right
/// down" decodes to exactly those two presses, left before right.
pub proof fn lemma_mouse_left_right_down(b: Seq<u8>, button_flags: u16)
    requires
        parse_spec(b) == Some(RawReport::Mouse { button_flags }),
        button_flags & 0x3ffu16 == 0x5u16,
    ensures
        decode_spec(b) == seq![
            (Input::Mouse(VK_LBUTTON), KeyState::Down),
            (Input::Mouse(VK_RBUTTON), KeyState::Down),
        ],
{
    lemma_left_right_upto(button_flags, MOUSE_TRANSITION_BITS as nat);
}

/// A report from a device that is neither a mouse nor a keyboard decodes to
/// no event.
pub proof fn lemma_other_device_silent(b: Seq<u8>)
    requires
        b.len() >= header_len(),
        le_u32(b, 0) != DEVICE_MOUSE,
        le_u32(b, 0) != DEVICE_KEYBOARD,
    ensures
        decode_spec(b) == Seq::<Event>::empty(),
{
}

/// The events of a run of reports: each report's events, in report order.
pub open spec fn decode_all(reports: Seq<Seq<u8>>) -> Seq<Event>
    decreases reports.len(),
{
    if reports.len() == 0 {
        seq![]
    } else {
        decode_all(reports.drop_last()) + decode_spec(reports.last())
    }
}

/// How many events a run of reports decodes to: the sum over its reports.
pub open spec fn event_count(reports: Seq<Seq<u8>>) -> nat
    decreases reports.len(),
{
    if reports.len() == 0 {
        0
    } else {
        event_count(reports.drop_last()) + decode_spec(reports.last()).len()
    }
}

/// Decoding a run of reports keeps their order and yields as many events as
/// the reports decode to one by one, not one per report.
pub proof fn lemma_decode_all_count(reports: Seq<Seq<u8>>)
    ensures
        decode_all(reports).len() == event_count(reports),
        forall|i: int| 0 <= i < reports.len() ==>
            #[trigger] decode_all(reports.take(i + 1)) == decode_all(reports.take(i)) + decode_spec(reports[i]),
    decreases reports.len(),
{
    if reports.len() > 0 {
        lemma_decode_all_count(reports.drop_last());
    }
    assert forall|i: int| 0 <= i < reports.len() implies
        #[trigger] decode_all(reports.take(i + 1)) == decode_all(reports.take(i)) + decode_spec(reports[i]) by {
        assert(reports.take(i + 1).drop_last() =~= reports.take(i));
    }
}

/// Decodes a run of reports, one after the other, into one run of events.
pub fn decode_batch(reports: &Vec<Vec<u8>>) -> (out: Vec<Event>)
    ensures
        out@ == decode_all(reports@.map_values(|r: Vec<u8>| r@)),
{
    let ghost views = reports@.map_values(|r: Vec<u8>| r@);
    let mut out: Vec<Event> = Vec::new();
    let mut i: usize = 0;
    while i < reports.len()
        invariant
            i <= reports.len(),
            views == reports@.map_values(|r: Vec<u8>| r@),
            out@ == decode_all(views.take(i as int)),
        decreases reports.len() - i,
    {
        let mut events = decode(reports[i].as_slice());
        proof {
            assert(views.take(i as int + 1).drop_last() =~= views.take(i as int));
        }
        out.append(&mut events);
        i = i + 1;
    }
    assert(views.take(i as int) =~= views);
    out
}

} // verus!
