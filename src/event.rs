//! The events a worker reports, and their decoding from a frame payload.
//!
//! Schema (field numbers in brackets):
//! `WorkerEvent { oneof event { ConnectionEvent connection [1]; string raw_log [2]; } }`,
//! `ConnectionEvent { string phone [1]; string status [2]; string pairing_code [3]; string qr [4]; }`.
//! A payload is a run of fields, each a key (field number and wire type) and a
//! value. Fields of unknown number are skipped; a later occurrence of a string
//! replaces an earlier one, and a later `connection` is merged into an earlier
//! one. Decoding fails on a malformed key or value, on a known field with the
//! wrong wire type, on text that is not UTF-8, and on groups.
use vstd::prelude::*;
use crate::frame::copy_range;
use crate::varint::{read_varint, varint_spec};

verus! {

/// Relies on `String::from_utf8`: the text that valid UTF-8 bytes encode.
pub uninterp spec fn utf8_text(b: Seq<u8>) -> Option<Seq<char>>;

/// A connection or session status update from a worker.
#[derive(Debug)]
pub struct ConnectionEvent {
    pub phone: String,
    pub status: String,
    pub pairing_code: String,
    pub qr: String,
}

/// The one event that a message carries.
#[derive(Debug)]
pub enum Event {
    Connection(ConnectionEvent),
    RawLog(String),
}

/// A decoded message; it may carry no event at all.
#[derive(Debug)]
pub struct WorkerEvent {
    pub event: Option<Event>,
}

/// The text of a `ConnectionEvent`.
pub struct ConnectionView {
    pub phone: Seq<char>,
    pub status: Seq<char>,
    pub pairing_code: Seq<char>,
    pub qr: Seq<char>,
}

/// The value of an `Event`.
pub enum EventView {
    Connection(ConnectionView),
    RawLog(Seq<char>),
}

impl View for ConnectionEvent {
    type V = ConnectionView;

    open spec fn view(&self) -> ConnectionView {
        ConnectionView { phone: self.phone@, status: self.status@, pairing_code: self.pairing_code@, qr: self.qr@ }
    }
}

impl View for Event {
    type V = EventView;

    open spec fn view(&self) -> EventView {
        match self {
            Event::Connection(c) => EventView::Connection(c@),
            Event::RawLog(t) => EventView::RawLog(t@),
        }
    }
}

impl View for WorkerEvent {
    type V = Option<EventView>;

    open spec fn view(&self) -> Option<EventView> {
        event_view(self.event)
    }
}

/// The value of an optional event.
pub open spec fn event_view(e: Option<Event>) -> Option<EventView> {
    match e {
        Some(x) => Some(x@),
        None => None,
    }
}

/// The value of one field, as far as decoding needs it.
pub enum Wire {
    Varint,
    Fixed64,
    Fixed32,
    Bytes(Seq<u8>),
}

/// The first field of `s`: its number, its value and the bytes it takes.
pub open spec fn field_spec(s: Seq<u8>) -> Option<(u64, Wire, nat)> {
    match varint_spec(s) {
        None => None,
        Some((key, n)) => {
            let rest = s.skip(n as int);
            let tag = key / 8;
            if key > 0xFFFF_FFFF || tag == 0 {
                None
            } else if key % 8 == 0 {
                match varint_spec(rest) {
                    Some((_, m)) => Some((tag, Wire::Varint, n + m)),
                    None => None,
                }
            } else if key % 8 == 1 {
                if rest.len() >= 8 {
                    Some((tag, Wire::Fixed64, n + 8))
                } else {
                    None
                }
            } else if key % 8 == 2 {
                match varint_spec(rest) {
                    Some((len, m)) => if m + len <= rest.len() {
                        Some((tag, Wire::Bytes(rest.subrange(m as int, m + len)), (n + m + len) as nat))
                    } else {
                        None
                    },
                    None => None,
                }
            } else if key % 8 == 5 {
                if rest.len() >= 4 {
                    Some((tag, Wire::Fixed32, n + 4))
                } else {
                    None
                }
            } else {
                None
            }
        },
    }
}

/// A `ConnectionEvent` whose strings are all empty.
pub open spec fn empty_connection() -> ConnectionView {
    ConnectionView { phone: Seq::empty(), status: Seq::empty(), pairing_code: Seq::empty(), qr: Seq::empty() }
}

/// `c` with string field `tag` (one to four) replaced by `t`.
pub open spec fn connection_with(c: ConnectionView, tag: u64, t: Seq<char>) -> ConnectionView {
    if tag == 1 {
        ConnectionView { phone: t, ..c }
    } else if tag == 2 {
        ConnectionView { status: t, ..c }
    } else if tag == 3 {
        ConnectionView { pairing_code: t, ..c }
    } else {
        ConnectionView { qr: t, ..c }
    }
}

/// One field of a `ConnectionEvent` merged into `c`.
pub open spec fn connection_step(c: ConnectionView, tag: u64, w: Wire) -> Option<ConnectionView> {
    if 1 <= tag <= 4 {
        match w {
            Wire::Bytes(b) => match utf8_text(b) {
                Some(t) => Some(connection_with(c, tag, t)),
                None => None,
            },
            _ => None,
        }
    } else {
        Some(c)
    }
}

/// The fields of a `ConnectionEvent` in `s`, merged into `c`.
pub open spec fn connection_fields(s: Seq<u8>, c: ConnectionView) -> Option<ConnectionView>
    decreases s.len(),
{
    if s.len() == 0 {
        Some(c)
    } else {
        match field_spec(s) {
            None => None,
            Some((tag, w, n)) => {
                if n == 0 || n > s.len() {
                    None
                } else {
                    match connection_step(c, tag, w) {
                        Some(c2) => connection_fields(s.skip(n as int), c2),
                        None => None,
                    }
                }
            },
        }
    }
}

/// One field of a `WorkerEvent` merged into the event `e` decoded so far.
pub open spec fn event_step(e: Option<EventView>, tag: u64, w: Wire) -> Option<Option<EventView>> {
    if tag == 1 {
        match w {
            Wire::Bytes(b) => {
                let base = match e {
                    Some(EventView::Connection(c)) => c,
                    _ => empty_connection(),
                };
                match connection_fields(b, base) {
                    Some(c) => Some(Some(EventView::Connection(c))),
                    None => None,
                }
            },
            _ => None,
        }
    } else if tag == 2 {
        match w {
            Wire::Bytes(b) => match utf8_text(b) {
                Some(t) => Some(Some(EventView::RawLog(t))),
                None => None,
            },
            _ => None,
        }
    } else {
        Some(e)
    }
}

/// The fields of a `WorkerEvent` in `s`, merged into the event `e` decoded so far.
pub open spec fn event_fields(s: Seq<u8>, e: Option<EventView>) -> Option<Option<EventView>>
    decreases s.len(),
{
    if s.len() == 0 {
        Some(e)
    } else {
        match field_spec(s) {
            None => None,
            Some((tag, w, n)) => {
                if n == 0 || n > s.len() {
                    None
                } else {
                    match event_step(e, tag, w) {
                        Some(e2) => event_fields(s.skip(n as int), e2),
                        None => None,
                    }
                }
            },
        }
    }
}

/// The event that a frame payload decodes to, if it decodes.
pub open spec fn decode_spec(payload: Seq<u8>) -> Option<Option<EventView>> {
    event_fields(payload, None)
}

/// Relies on `String::from_utf8`: it succeeds exactly on valid UTF-8 and then
/// returns the text those bytes encode.
#[verifier::external_body]
fn text_from_utf8(b: Vec<u8>) -> (r: Option<String>)
    ensures
        r.is_some() == utf8_text(b@).is_some(),
        r.is_some() ==> r.unwrap()@ == utf8_text(b@).unwrap(),
{
    String::from_utf8(b).ok()
}

/// The value of a field as positions in the decoded bytes.
enum Body {
    Scalar,
    Bytes(usize, usize),
}

spec fn body_matches(s: Seq<u8>, body: Body, w: Wire) -> bool {
    match (body, w) {
        (Body::Bytes(a, z), Wire::Bytes(b)) => a <= z <= s.len() && s.subrange(a as int, z as int) == b,
        (Body::Scalar, Wire::Bytes(_)) => false,
        (Body::Scalar, _) => true,
        _ => false,
    }
}

/// Reads the field that starts at `pos`: its number, its value and where the
/// next field starts.
fn read_field(s: &[u8], pos: usize) -> (r: Option<(u64, Body, usize)>)
    requires
        pos <= s@.len(),
    ensures
        match r {
            Some((tag, body, next)) => match field_spec(s@.skip(pos as int)) {
                Some((t, w, n)) => t == tag && next == pos + n && next <= s@.len() && body_matches(s@, body, w),
                None => false,
            },
            None => field_spec(s@.skip(pos as int)).is_none(),
        },
{
    let slen = s.len();
    let ghost t = s@.skip(pos as int);
    let first = read_varint(s, pos);
    if first.is_none() {
        return None;
    }
    let (key, n) = first.unwrap();
    assert(pos + n <= s@.len());
    let p = pos + n;
    assert(t.skip(n as int) =~= s@.skip(p as int));
    let tag = key / 8;
    if key > 0xFFFF_FFFF || tag == 0 {
        return None;
    }
    let wt = key % 8;
    if wt == 0 {
        let second = read_varint(s, p);
        match second {
            Some((_, m)) => {
                assert(p + m <= s@.len());
                Some((tag, Body::Scalar, p + m))
            },
            None => None,
        }
    } else if wt == 1 {
        if s.len() - p >= 8 {
            Some((tag, Body::Scalar, p + 8))
        } else {
            None
        }
    } else if wt == 2 {
        match read_varint(s, p) {
            Some((len, m)) => {
                let q = p + m;
                if len <= (s.len() - q) as u64 {
                    let z = q + len as usize;
                    assert(s@.skip(p as int).subrange(m as int, m + len) =~= s@.subrange(q as int, z as int));
                    Some((tag, Body::Bytes(q, z), z))
                } else {
                    None
                }
            },
            None => None,
        }
    } else if wt == 5 {
        if s.len() - p >= 4 {
            Some((tag, Body::Scalar, p + 4))
        } else {
            None
        }
    } else {
        None
    }
}

/// Decodes the fields of a `ConnectionEvent` from `s`, merged into `c`.
fn decode_connection(s: &[u8], c: ConnectionEvent) -> (r: Option<ConnectionEvent>)
    ensures
        match r {
            Some(x) => connection_fields(s@, c@) == Some(x@),
            None => connection_fields(s@, c@).is_none(),
        },
{
    let mut cur = c;
    let mut pos: usize = 0;
    assert(s@.skip(0) =~= s@);
    while pos < s.len()
        invariant
            pos <= s@.len(),
            connection_fields(s@.skip(pos as int), cur@) == connection_fields(s@, c@),
        decreases s@.len() - pos,
    {
        let ghost rest = s@.skip(pos as int);
        let (tag, body, next) = match read_field(s, pos) {
            Some(f) => f,
            None => {
                return None;
            },
        };
        let ghost w = field_spec(rest).unwrap().1;
        assert(s@.skip(next as int) =~= rest.skip((next - pos) as int));
        if 1 <= tag && tag <= 4 {
            match body {
                Body::Bytes(a, z) => {
                    let text = match text_from_utf8(copy_range(s, a, z)) {
                        Some(t) => t,
                        None => {
                            return None;
                        },
                    };
                    if tag == 1 {
                        cur.phone = text;
                    } else if tag == 2 {
                        cur.status = text;
                    } else if tag == 3 {
                        cur.pairing_code = text;
                    } else {
                        cur.qr = text;
                    }
                },
                Body::Scalar => {
                    return None;
                },
            }
        }
        pos = next;
    }
    assert(s@.skip(pos as int) =~= Seq::<u8>::empty());
    Some(cur)
}

/// Merges one field of a `WorkerEvent` into the event decoded so far.
fn merge_event_field(s: &[u8], cur: Option<Event>, tag: u64, body: Body, Ghost(w): Ghost<Wire>) -> (r: Option<
    Option<Event>,
>)
    requires
        body_matches(s@, body, w),
    ensures
        match r {
            Some(e) => event_step(event_view(cur), tag, w) == Some(event_view(e)),
            None => event_step(event_view(cur), tag, w).is_none(),
        },
{
    if tag == 1 {
        match body {
            Body::Bytes(a, z) => {
                let base = match cur {
                    Some(Event::Connection(c)) => c,
                    _ => ConnectionEvent {
                        phone: String::new(),
                        status: String::new(),
                        pairing_code: String::new(),
                        qr: String::new(),
                    },
                };
                match decode_connection(&copy_range(s, a, z), base) {
                    Some(c) => Some(Some(Event::Connection(c))),
                    None => None,
                }
            },
            Body::Scalar => None,
        }
    } else if tag == 2 {
        match body {
            Body::Bytes(a, z) => match text_from_utf8(copy_range(s, a, z)) {
                Some(t) => Some(Some(Event::RawLog(t))),
                None => None,
            },
            Body::Scalar => None,
        }
    } else {
        Some(cur)
    }
}

/// Decodes a frame payload into a `WorkerEvent`; `None` when the payload is
/// malformed.
pub fn decode_event(s: &[u8]) -> (r: Option<WorkerEvent>)
    ensures
        match r {
            Some(e) => decode_spec(s@) == Some(e@),
            None => decode_spec(s@).is_none(),
        },
{
    let mut cur: Option<Event> = None;
    let mut pos: usize = 0;
    assert(s@.skip(0) =~= s@);
    while pos < s.len()
        invariant
            pos <= s@.len(),
            event_fields(s@.skip(pos as int), event_view(cur)) == decode_spec(s@),
        decreases s@.len() - pos,
    {
        let ghost rest = s@.skip(pos as int);
        let (tag, body, next) = match read_field(s, pos) {
            Some(f) => f,
            None => {
                return None;
            },
        };
        let ghost w = field_spec(rest).unwrap().1;
        assert(s@.skip(next as int) =~= rest.skip((next - pos) as int));
        match merge_event_field(s, cur, tag, body, Ghost(w)) {
            Some(e) => {
                cur = e;
            },
            None => {
                return None;
            },
        }
        pos = next;
    }
    assert(s@.skip(pos as int) =~= Seq::<u8>::empty());
    Some(WorkerEvent { event: cur })
}

} // verus!
