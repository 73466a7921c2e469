//! The event wire format.
//!
//! Lifecycle, window and input-queue occurrences cross OS-thread
//! boundaries as fixed-size binary records on a signalling pipe.  A
//! record is one tag byte followed by a sixteen-byte payload: four
//! little-endian `u32` bounds for the content-rect variant, zero bytes
//! for every other variant.  Decoding is strict: a record is accepted
//! exactly when it is the encoding of some event, so a torn or corrupted
//! read can never surface as a different event.

use vstd::prelude::*;

verus! {

/// Visible content area of a native window surface, exclusive of
/// system decorations: four unsigned 32-bit bounds.
#[derive(Clone, Copy, Debug, PartialEq, Eq, Structural)]
pub struct Rect {
    pub left: u32,
    pub top: u32,
    pub right: u32,
    pub bottom: u32,
}

impl Default for Rect {
    fn default() -> (r: Self)
        ensures
            r == (Rect { left: 0, top: 0, right: 0, bottom: 0 }),
    {
        Rect { left: 0, top: 0, right: 0, bottom: 0 }
    }
}

/// A lifecycle, window or input-queue occurrence, as surfaced to the
/// portable event loop.  Only the content-rect variant carries a
/// payload; every other variant is a bare tag.
#[derive(Clone, Copy, Debug, PartialEq, Eq, Structural)]
pub enum Event {
    Start,
    Resume,
    SaveInstanceState,
    Pause,
    Stop,
    Destroy,
    ConfigChanged,
    LowMemory,
    WindowLostFocus,
    WindowHasFocus,
    WindowCreated,
    WindowResized,
    WindowRedrawNeeded,
    /// If the window is in use by e.g. a graphics API, the read guard on
    /// the native window handle must be held until those resources are
    /// freed; the glue blocks until that guard is released before the OS
    /// may reclaim the window.
    WindowDestroyed,
    InputQueueCreated,
    /// As with `WindowDestroyed`: the glue blocks until the input-queue
    /// read guard is released before the OS may reclaim the queue.
    InputQueueDestroyed,
    ContentRectChanged(Rect),
}

/// Size in bytes of one event record on the wire.
pub const EVENT_RECORD_SIZE: usize = 17;

/// Wire tag of each event variant.
pub open spec fn spec_event_tag(e: Event) -> u8 {
    match e {
        Event::Start => 0,
        Event::Resume => 1,
        Event::SaveInstanceState => 2,
        Event::Pause => 3,
        Event::Stop => 4,
        Event::Destroy => 5,
        Event::ConfigChanged => 6,
        Event::LowMemory => 7,
        Event::WindowLostFocus => 8,
        Event::WindowHasFocus => 9,
        Event::WindowCreated => 10,
        Event::WindowResized => 11,
        Event::WindowRedrawNeeded => 12,
        Event::WindowDestroyed => 13,
        Event::InputQueueCreated => 14,
        Event::InputQueueDestroyed => 15,
        Event::ContentRectChanged(_) => 16,
    }
}

/// Little-endian bytes of a `u32`.
pub open spec fn spec_u32_le(x: u32) -> Seq<u8> {
    seq![
        (x & 0xff) as u8,
        ((x >> 8) & 0xff) as u8,
        ((x >> 16) & 0xff) as u8,
        ((x >> 24) & 0xff) as u8,
    ]
}

/// The `u32` read from four little-endian bytes.
pub open spec fn spec_u32_of(b0: u8, b1: u8, b2: u8, b3: u8) -> u32 {
    (b0 as u32) | ((b1 as u32) << 8) | ((b2 as u32) << 16) | ((b3 as u32) << 24)
}

/// Reading back the little-endian bytes of `x` yields `x`.
pub proof fn lemma_u32_le_round_trip(x: u32)
    ensures
        spec_u32_of(
            spec_u32_le(x)[0],
            spec_u32_le(x)[1],
            spec_u32_le(x)[2],
            spec_u32_le(x)[3],
        ) == x,
{
    assert(((x & 0xff) as u8 as u32) | ((((x >> 8) & 0xff) as u8 as u32) << 8)
        | ((((x >> 16) & 0xff) as u8 as u32) << 16) | ((((x >> 24) & 0xff) as u8 as u32) << 24)
        == x) by (bit_vector);
}

/// The little-endian bytes of the `u32` read from four bytes are those
/// same four bytes.
pub proof fn lemma_u32_of_round_trip(b0: u8, b1: u8, b2: u8, b3: u8)
    ensures
        spec_u32_le(spec_u32_of(b0, b1, b2, b3)) == seq![b0, b1, b2, b3],
{
    let x = spec_u32_of(b0, b1, b2, b3);
    assert((((b0 as u32) | ((b1 as u32) << 8) | ((b2 as u32) << 16) | ((b3 as u32) << 24)) & 0xff)
        as u8 == b0) by (bit_vector);
    assert(((((b0 as u32) | ((b1 as u32) << 8) | ((b2 as u32) << 16) | ((b3 as u32) << 24)) >> 8)
        & 0xff) as u8 == b1) by (bit_vector);
    assert(((((b0 as u32) | ((b1 as u32) << 8) | ((b2 as u32) << 16) | ((b3 as u32) << 24)) >> 16)
        & 0xff) as u8 == b2) by (bit_vector);
    assert(((((b0 as u32) | ((b1 as u32) << 8) | ((b2 as u32) << 16) | ((b3 as u32) << 24)) >> 24)
        & 0xff) as u8 == b3) by (bit_vector);
    assert(spec_u32_le(x) =~= seq![b0, b1, b2, b3]);
}

/// Sixteen zero bytes: the payload of every variant without one.
pub open spec fn spec_zero_payload() -> Seq<u8> {
    Seq::new(16, |i: int| 0u8)
}

/// Payload bytes of the content-rect variant: the four bounds, each
/// little-endian.
pub open spec fn spec_rect_bytes(r: Rect) -> Seq<u8> {
    spec_u32_le(r.left) + spec_u32_le(r.top) + spec_u32_le(r.right) + spec_u32_le(r.bottom)
}

/// The full wire record of an event: tag byte, then payload.
pub open spec fn spec_encode_event(e: Event) -> Seq<u8> {
    seq![spec_event_tag(e)] + (match e {
        Event::ContentRectChanged(r) => spec_rect_bytes(r),
        _ => spec_zero_payload(),
    })
}

/// The payloadless event denoted by a tag byte, if any.
pub open spec fn spec_tag_event(t: u8) -> Option<Event> {
    if t == 0 {
        Some(Event::Start)
    } else if t == 1 {
        Some(Event::Resume)
    } else if t == 2 {
        Some(Event::SaveInstanceState)
    } else if t == 3 {
        Some(Event::Pause)
    } else if t == 4 {
        Some(Event::Stop)
    } else if t == 5 {
        Some(Event::Destroy)
    } else if t == 6 {
        Some(Event::ConfigChanged)
    } else if t == 7 {
        Some(Event::LowMemory)
    } else if t == 8 {
        Some(Event::WindowLostFocus)
    } else if t == 9 {
        Some(Event::WindowHasFocus)
    } else if t == 10 {
        Some(Event::WindowCreated)
    } else if t == 11 {
        Some(Event::WindowResized)
    } else if t == 12 {
        Some(Event::WindowRedrawNeeded)
    } else if t == 13 {
        Some(Event::WindowDestroyed)
    } else if t == 14 {
        Some(Event::InputQueueCreated)
    } else if t == 15 {
        Some(Event::InputQueueDestroyed)
    } else {
        None
    }
}

/// Whether all sixteen payload bytes of a record are zero.
pub open spec fn spec_payload_zero(b: Seq<u8>) -> bool {
    forall|i: int| 1 <= i < 17 ==> b[i] == 0u8
}

/// The rect carried in the payload of a full record.
pub open spec fn spec_rect_of(b: Seq<u8>) -> Rect {
    Rect {
        left: spec_u32_of(b[1], b[2], b[3], b[4]),
        top: spec_u32_of(b[5], b[6], b[7], b[8]),
        right: spec_u32_of(b[9], b[10], b[11], b[12]),
        bottom: spec_u32_of(b[13], b[14], b[15], b[16]),
    }
}

/// Strict decoding: a byte sequence denotes an event exactly when it is
/// a full-size record whose tag is known and whose payload is canonical.
pub open spec fn spec_decode_event(b: Seq<u8>) -> Option<Event> {
    if b.len() != EVENT_RECORD_SIZE {
        None
    } else if b[0] == 16 {
        Some(Event::ContentRectChanged(spec_rect_of(b)))
    } else if spec_payload_zero(b) {
        spec_tag_event(b[0])
    } else {
        None
    }
}

/// Round trip: decoding an encoded event yields the event unchanged.
pub proof fn lemma_event_round_trip(e: Event)
    ensures
        spec_decode_event(spec_encode_event(e)) == Some(e),
{
    let b = spec_encode_event(e);
    assert(b.len() == EVENT_RECORD_SIZE);
    match e {
        Event::ContentRectChanged(r) => {
            assert(b[0] == 16);
            lemma_u32_le_round_trip(r.left);
            lemma_u32_le_round_trip(r.top);
            lemma_u32_le_round_trip(r.right);
            lemma_u32_le_round_trip(r.bottom);
            assert(spec_rect_of(b) == r);
        },
        _ => {
            assert(b[0] == spec_event_tag(e));
            assert(b[0] != 16);
            assert(spec_payload_zero(b)) by {
                assert forall|i: int| 1 <= i < 17 implies b[i] == 0u8 by {
                    assert(b[i] == spec_zero_payload()[i - 1]);
                }
            }
            assert(spec_tag_event(spec_event_tag(e)) == Some(e));
        },
    }
}

/// Strictness: a byte sequence decodes to an event only if it is exactly
/// that event's encoding, so no two distinct records can be confused.
pub proof fn lemma_decode_exact(b: Seq<u8>, e: Event)
    requires
        spec_decode_event(b) == Some(e),
    ensures
        b == spec_encode_event(e),
{
    assert(b.len() == 17);
    if b[0] == 16 {
        let r = spec_rect_of(b);
        assert(e == Event::ContentRectChanged(r));
        lemma_u32_of_round_trip(b[1], b[2], b[3], b[4]);
        lemma_u32_of_round_trip(b[5], b[6], b[7], b[8]);
        lemma_u32_of_round_trip(b[9], b[10], b[11], b[12]);
        lemma_u32_of_round_trip(b[13], b[14], b[15], b[16]);
        assert(b =~= spec_encode_event(e));
    } else {
        assert(spec_payload_zero(b));
        assert(spec_tag_event(b[0]) == Some(e));
        assert(b[0] == spec_event_tag(e));
        assert(b =~= spec_encode_event(e));
    }
}

/// No two distinct events share a wire record.
pub proof fn lemma_encode_injective(a: Event, b: Event)
    requires
        spec_encode_event(a) == spec_encode_event(b),
    ensures
        a == b,
{
    lemma_event_round_trip(a);
    lemma_event_round_trip(b);
}

/// A short (torn) read never denotes an event.
pub proof fn lemma_partial_read_dropped(b: Seq<u8>)
    requires
        b.len() < EVENT_RECORD_SIZE,
    ensures
        spec_decode_event(b) is None,
{
}

/// Appends the little-endian bytes of `x`.
fn push_u32_le(out: &mut Vec<u8>, x: u32)
    ensures
        final(out)@ == old(out)@ + spec_u32_le(x),
{
    proof {
        assert(x & 0xff < 256 && (x >> 8) & 0xff < 256 && (x >> 16) & 0xff < 256 && (x >> 24)
            & 0xff < 256) by (bit_vector);
    }
    out.push((x & 0xff) as u8);
    out.push(((x >> 8) & 0xff) as u8);
    out.push(((x >> 16) & 0xff) as u8);
    out.push(((x >> 24) & 0xff) as u8);
    assert(final(out)@ =~= old(out)@ + spec_u32_le(x));
}

/// Reads a `u32` from four little-endian bytes.
fn u32_from_le(b0: u8, b1: u8, b2: u8, b3: u8) -> (r: u32)
    ensures
        r == spec_u32_of(b0, b1, b2, b3),
{
    (b0 as u32) | ((b1 as u32) << 8) | ((b2 as u32) << 16) | ((b3 as u32) << 24)
}

/// The wire tag of an event.
pub fn event_tag(e: &Event) -> (t: u8)
    ensures
        t == spec_event_tag(*e),
{
    match e {
        Event::Start => 0,
        Event::Resume => 1,
        Event::SaveInstanceState => 2,
        Event::Pause => 3,
        Event::Stop => 4,
        Event::Destroy => 5,
        Event::ConfigChanged => 6,
        Event::LowMemory => 7,
        Event::WindowLostFocus => 8,
        Event::WindowHasFocus => 9,
        Event::WindowCreated => 10,
        Event::WindowResized => 11,
        Event::WindowRedrawNeeded => 12,
        Event::WindowDestroyed => 13,
        Event::InputQueueCreated => 14,
        Event::InputQueueDestroyed => 15,
        Event::ContentRectChanged(_) => 16,
    }
}

/// Encodes an event as one full-size wire record.
pub fn encode_event(e: &Event) -> (r: Vec<u8>)
    ensures
        r@ == spec_encode_event(*e),
        r@.len() == EVENT_RECORD_SIZE,
{
    let mut out: Vec<u8> = Vec::new();
    out.push(event_tag(e));
    match e {
        Event::ContentRectChanged(rect) => {
            push_u32_le(&mut out, rect.left);
            push_u32_le(&mut out, rect.top);
            push_u32_le(&mut out, rect.right);
            push_u32_le(&mut out, rect.bottom);
            assert(out@ =~= spec_encode_event(*e));
        },
        _ => {
            let mut i: usize = 0;
            while i < 16
                invariant
                    i <= 16,
                    out@.len() == 1 + i,
                    out@[0] == spec_event_tag(*e),
                    forall|j: int| 1 <= j < out@.len() ==> out@[j] == 0u8,
                decreases 16 - i,
            {
                out.push(0u8);
                i = i + 1;
            }
            assert(out@ =~= spec_encode_event(*e));
        },
    }
    out
}

/// Decodes one wire record; anything but a full-size canonical record
/// is treated as "no event".
pub fn decode_event(buf: &Vec<u8>) -> (r: Option<Event>)
    ensures
        r == spec_decode_event(buf@),
{
    if buf.len() != EVENT_RECORD_SIZE {
        return None;
    }
    let tag = buf[0];
    if tag == 16 {
        let left = u32_from_le(buf[1], buf[2], buf[3], buf[4]);
        let top = u32_from_le(buf[5], buf[6], buf[7], buf[8]);
        let right = u32_from_le(buf[9], buf[10], buf[11], buf[12]);
        let bottom = u32_from_le(buf[13], buf[14], buf[15], buf[16]);
        return Some(Event::ContentRectChanged(Rect { left, top, right, bottom }));
    }
    let mut i: usize = 1;
    while i < EVENT_RECORD_SIZE
        invariant
            1 <= i <= EVENT_RECORD_SIZE,
            buf@.len() == EVENT_RECORD_SIZE,
            buf@[0] != 16u8,
            forall|j: int| 1 <= j < i ==> buf@[j] == 0u8,
        decreases EVENT_RECORD_SIZE - i,
    {
        if buf[i] != 0 {
            proof {
                assert(buf@[i as int] != 0u8);
                assert(!spec_payload_zero(buf@));
            }
            return None;
        }
        i = i + 1;
    }
    match tag {
        0 => Some(Event::Start),
        1 => Some(Event::Resume),
        2 => Some(Event::SaveInstanceState),
        3 => Some(Event::Pause),
        4 => Some(Event::Stop),
        5 => Some(Event::Destroy),
        6 => Some(Event::ConfigChanged),
        7 => Some(Event::LowMemory),
        8 => Some(Event::WindowLostFocus),
        9 => Some(Event::WindowHasFocus),
        10 => Some(Event::WindowCreated),
        11 => Some(Event::WindowResized),
        12 => Some(Event::WindowRedrawNeeded),
        13 => Some(Event::WindowDestroyed),
        14 => Some(Event::InputQueueCreated),
        15 => Some(Event::InputQueueDestroyed),
        _ => None,
    }
}

} // verus!
