use crate::render::{decimal_string, decimal_text};
use vstd::prelude::*;

verus! {

/// An instant as seconds since the Unix epoch plus a sub-second part.
#[derive(Clone, Copy, Debug, PartialEq, Eq, Structural)]
pub struct Timestamp {
    pub secs: i64,
    pub nanos: u32,
}

/// An event as the transport delivers it; every field may be absent.
#[derive(Clone, Debug)]
pub struct RawEvent {
    pub namespace: Option<String>,
    pub first_timestamp: Option<Timestamp>,
    pub source_component: Option<String>,
    pub message: Option<String>,
    pub event_type: Option<String>,
    pub reason: Option<String>,
    pub count: Option<i32>,
}

/// A delivered event that cannot be processed.
#[derive(Clone, Copy, Debug, PartialEq, Eq, Structural)]
pub enum MalformedEvent {
    MissingNamespace,
    MissingType,
    /// The event's instant lies outside the range the calendar can render.
    TimestampOutOfRange,
}

/// A raw event with every optional field resolved and the instant rendered
/// as local time.
///
/// `time_key` is the instant as fingerprinted: the event's own instant in
/// whole seconds since the epoch, or empty where the event carried none. It
/// leaves out what differs between re-deliveries of one event: sub-second
/// precision, the rendering, and the time of delivery.
#[derive(Clone, Debug)]
pub struct NormalizedEvent {
    pub timestamp: String,
    pub time_key: String,
    pub source_component: String,
    pub namespace: String,
    pub event_type: String,
    pub message: String,
    pub reason: String,
    pub count: i32,
}

pub struct RawEventView {
    pub namespace: Option<Seq<char>>,
    pub first_timestamp: Option<Timestamp>,
    pub source_component: Option<Seq<char>>,
    pub message: Option<Seq<char>>,
    pub event_type: Option<Seq<char>>,
    pub reason: Option<Seq<char>>,
    pub count: Option<i32>,
}

pub struct EventView {
    pub timestamp: Seq<char>,
    pub time_key: Seq<char>,
    pub source_component: Seq<char>,
    pub namespace: Seq<char>,
    pub event_type: Seq<char>,
    pub message: Seq<char>,
    pub reason: Seq<char>,
    pub count: i32,
}

pub open spec fn text_view(o: Option<String>) -> Option<Seq<char>> {
    match o {
        Some(s) => Some(s@),
        None => None,
    }
}

pub open spec fn text_or_empty(o: Option<Seq<char>>) -> Seq<char> {
    match o {
        Some(s) => s,
        None => Seq::empty(),
    }
}

impl View for RawEvent {
    type V = RawEventView;

    open spec fn view(&self) -> RawEventView {
        RawEventView {
            namespace: text_view(self.namespace),
            first_timestamp: self.first_timestamp,
            source_component: text_view(self.source_component),
            message: text_view(self.message),
            event_type: text_view(self.event_type),
            reason: text_view(self.reason),
            count: self.count,
        }
    }
}

impl View for NormalizedEvent {
    type V = EventView;

    open spec fn view(&self) -> EventView {
        EventView {
            timestamp: self.timestamp@,
            time_key: self.time_key@,
            source_component: self.source_component@,
            namespace: self.namespace@,
            event_type: self.event_type@,
            message: self.message@,
            reason: self.reason@,
            count: self.count,
        }
    }
}

/// Which required field, if any, `raw` lacks; the namespace is checked first.
pub open spec fn missing_field(raw: RawEventView) -> Option<MalformedEvent> {
    if raw.namespace is None {
        Some(MalformedEvent::MissingNamespace)
    } else if raw.event_type is None {
        Some(MalformedEvent::MissingType)
    } else {
        None
    }
}

/// Instants whose calendar date lies well inside the representable years.
pub open spec fn renderable(t: Timestamp) -> bool {
    &&& t.nanos < 1_000_000_000
    &&& -8_000_000_000_000 <= t.secs <= 8_000_000_000_000
}

/// The fingerprinted form of an event's instant: its own whole seconds in
/// decimal, or nothing where it carries no instant.
pub open spec fn time_key_of(raw: RawEventView) -> Seq<char> {
    match raw.first_timestamp {
        Some(t) => decimal_text(t.secs as int),
        None => Seq::empty(),
    }
}

/// `raw` with its optional fields defaulted and `timestamp` as its rendered
/// instant.
pub open spec fn normalized(raw: RawEventView, timestamp: Seq<char>) -> EventView {
    EventView {
        timestamp,
        time_key: time_key_of(raw),
        source_component: text_or_empty(raw.source_component),
        namespace: text_or_empty(raw.namespace),
        event_type: text_or_empty(raw.event_type),
        message: text_or_empty(raw.message),
        reason: text_or_empty(raw.reason),
        count: match raw.count {
            Some(c) => c,
            None => 0,
        },
    }
}

/// The instant an event is reported at: its own, or `now` where it has none.
pub open spec fn effective_time(raw: RawEventView, now: Timestamp) -> Timestamp {
    match raw.first_timestamp {
        Some(t) => t,
        None => now,
    }
}

fn string_or_empty(o: Option<String>) -> (r: String)
    ensures
        r@ == text_or_empty(text_view(o)),
{
    match o {
        Some(s) => s,
        None => String::new(),
    }
}

impl RawEvent {
    /// The fingerprinted form of the event's own instant.
    pub fn time_key(&self) -> (r: String)
        ensures
            r@ == time_key_of(self@),
    {
        match self.first_timestamp {
            Some(t) => decimal_string(t.secs),
            None => String::new(),
        }
    }

    /// Checks the required fields, reporting the namespace before the type.
    pub fn check_required(&self) -> (r: Result<(), MalformedEvent>)
        ensures
            missing_field(self@) is None <==> r is Ok,
            r matches Err(e) ==> missing_field(self@) == Some(e),
    {
        if self.namespace.is_none() {
            Err(MalformedEvent::MissingNamespace)
        } else if self.event_type.is_none() {
            Err(MalformedEvent::MissingType)
        } else {
            Ok(())
        }
    }

    /// The event's own instant, or `now` where it has none.
    pub fn effective_time(&self, now: Timestamp) -> (r: Timestamp)
        ensures
            r == effective_time(self@, now),
    {
        match self.first_timestamp {
            Some(t) => t,
            None => now,
        }
    }

    /// Resolves the optional fields to their defaults, taking `timestamp` as
    /// the rendered instant; fails when the namespace or the type is absent.
    pub fn normalize(self, timestamp: String) -> (r: Result<NormalizedEvent, MalformedEvent>)
        ensures
            match r {
                Ok(e) => missing_field(self@) is None && e@ == normalized(self@, timestamp@),
                Err(err) => missing_field(self@) == Some(err),
            },
    {
        let ghost raw = self@;
        match self.check_required() {
            Err(e) => Err(e),
            Ok(()) => {
                let time_key = self.time_key();
                let e = NormalizedEvent {
                    timestamp,
                    time_key,
                    source_component: string_or_empty(self.source_component),
                    namespace: string_or_empty(self.namespace),
                    event_type: string_or_empty(self.event_type),
                    message: string_or_empty(self.message),
                    reason: string_or_empty(self.reason),
                    count: match self.count {
                        Some(c) => c,
                        None => 0,
                    },
                };
                assert(e@ == normalized(raw, timestamp@));
                Ok(e)
            },
        }
    }
}

} // verus!
