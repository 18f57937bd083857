use crate::dedup::DedupIndex;
use crate::event::{
    effective_time, missing_field, normalized, renderable, text_or_empty, time_key_of, EventView, MalformedEvent, NormalizedEvent,
    RawEvent, RawEventView, Timestamp,
};
use crate::fingerprint::{fingerprint, fingerprint_of, fnv1a_of};
use crate::render::{duplicate_line, format_duplicate, format_record, record_line};
use vstd::prelude::*;

verus! {

/// What became of one delivered event.
#[derive(Clone, Debug)]
pub enum Outcome {
    /// First sight of this fingerprint: the event is reported.
    Novel { event: NormalizedEvent, fingerprint: u64 },
    /// A re-delivery: only its fingerprint is reported.
    Duplicate { fingerprint: u64 },
}

pub enum OutcomeView {
    Novel { event: EventView, fingerprint: u64 },
    Duplicate { fingerprint: u64 },
}

impl View for Outcome {
    type V = OutcomeView;

    open spec fn view(&self) -> OutcomeView {
        match self {
            Outcome::Novel { event, fingerprint } => OutcomeView::Novel {
                event: event@,
                fingerprint: *fingerprint,
            },
            Outcome::Duplicate { fingerprint } => OutcomeView::Duplicate {
                fingerprint: *fingerprint,
            },
        }
    }
}

pub open spec fn result_view(r: Result<Outcome, MalformedEvent>) -> Result<
    OutcomeView,
    MalformedEvent,
> {
    match r {
        Ok(o) => Ok(o@),
        Err(e) => Err(e),
    }
}

/// The line written for an outcome.
pub open spec fn outcome_line(o: OutcomeView) -> Seq<char> {
    match o {
        OutcomeView::Novel { event, fingerprint } => record_line(event, fingerprint),
        OutcomeView::Duplicate { fingerprint } => duplicate_line(fingerprint),
    }
}

/// The verdict on `e` with fingerprint `fp`, given the fingerprints `seen`.
pub open spec fn decision(seen: Set<u64>, e: EventView, fp: u64) -> OutcomeView {
    if seen.contains(fp) {
        OutcomeView::Duplicate { fingerprint: fp }
    } else {
        OutcomeView::Novel { event: e, fingerprint: fp }
    }
}

/// One delivery of `raw`, whose instant renders as `timestamp`: the
/// fingerprints seen afterwards, and the outcome.
pub open spec fn step(seen: Set<u64>, raw: RawEventView, timestamp: Seq<char>) -> (
    Set<u64>,
    Result<OutcomeView, MalformedEvent>,
) {
    match missing_field(raw) {
        Some(err) => (seen, Err(err)),
        None => {
            let e = normalized(raw, timestamp);
            let fp = fingerprint_of(e);
            (seen.insert(fp), Ok(decision(seen, e, fp)))
        },
    }
}

/// Whether an outcome reports a novel event.
pub open spec fn is_novel(r: Result<OutcomeView, MalformedEvent>) -> bool {
    r matches Ok(OutcomeView::Novel { .. })
}

/// The fingerprint a well-formed `raw` gets, however its instant renders.
pub open spec fn raw_fingerprint(raw: RawEventView) -> u64 {
    fnv1a_of(
        time_key_of(raw) + text_or_empty(raw.source_component) + text_or_empty(raw.namespace)
            + text_or_empty(raw.event_type) + text_or_empty(raw.message),
    )
}

/// The rendered instant does not take part in an event's fingerprint.
pub proof fn fingerprint_ignores_rendering(raw: RawEventView, timestamp: Seq<char>)
    ensures
        fingerprint_of(normalized(raw, timestamp)) == raw_fingerprint(raw),
{
}

impl Outcome {
    /// The line to write for this outcome.
    pub fn line(&self) -> (r: String)
        ensures
            r@ == outcome_line(self@),
    {
        match self {
            Outcome::Novel { event, fingerprint } => format_record(event, *fingerprint),
            Outcome::Duplicate { fingerprint } => format_duplicate(*fingerprint),
        }
    }
}

/// Relies on chrono: `DateTime::<Utc>::from_timestamp` gives `None` for an
/// instant out of its range or an invalid sub-second part; the `Display` of
/// `DateTime<Local>` depends on the machine's time zone, so nothing is
/// claimed of the text. A renderable instant has whole seconds and a date
/// inside chrono's years, so it is always accepted.
#[verifier::external_body]
fn local_time_text(t: Timestamp) -> (r: Option<String>)
    ensures
        renderable(t) ==> r is Some,
{
    match chrono::DateTime::<chrono::Utc>::from_timestamp(t.secs, t.nanos) {
        Some(utc) => Some(chrono::DateTime::<chrono::Local>::from(utc).to_string()),
        None => None,
    }
}

/// The event-handling loop's state: the fingerprints seen so far.
pub struct Processor {
    index: DedupIndex,
}

impl View for Processor {
    type V = Set<u64>;

    closed spec fn view(&self) -> Set<u64> {
        self.index@
    }
}

impl Processor {
    pub fn new() -> (r: Processor)
        ensures
            r@ == Set::<u64>::empty(),
    {
        Processor { index: DedupIndex::new() }
    }

    /// Checks and marks `fp` in one step, and rules on `event`.
    pub fn decide(&mut self, event: NormalizedEvent, fp: u64) -> (r: Outcome)
        ensures
            final(self)@ == old(self)@.insert(fp),
            r@ == decision(old(self)@, event@, fp),
    {
        if self.index.check_and_mark(fp) {
            Outcome::Duplicate { fingerprint: fp }
        } else {
            Outcome::Novel { event, fingerprint: fp }
        }
    }

    /// Handles one delivery of `raw`, whose instant renders as `timestamp`.
    /// A malformed event leaves the state as it was.
    pub fn handle(&mut self, raw: RawEvent, timestamp: String) -> (r: Result<Outcome, MalformedEvent>)
        ensures
            (final(self)@, result_view(r)) == step(old(self)@, raw@, timestamp@),
    {
        match raw.normalize(timestamp) {
            Err(e) => Err(e),
            Ok(event) => {
                let fp = fingerprint(&event);
                Ok(self.decide(event, fp))
            },
        }
    }

    /// Handles one delivery of `raw`, reporting it at `now` where it carries
    /// no instant of its own. A missing namespace or type is reported before
    /// the instant is rendered; a well-formed event at a renderable instant
    /// always succeeds; any failure leaves the state as it was.
    pub fn process(&mut self, raw: RawEvent, now: Timestamp) -> (r: Result<Outcome, MalformedEvent>)
        ensures
            match missing_field(raw@) {
                Some(err) => {
                    &&& r == Err::<Outcome, MalformedEvent>(err)
                    &&& final(self)@ == old(self)@
                },
                None => match r {
                    Ok(o) => {
                        &&& final(self)@ == old(self)@.insert(raw_fingerprint(raw@))
                        &&& exists|text: Seq<char>|
                            #[trigger] step(old(self)@, raw@, text)
                                == (final(self)@, Ok::<OutcomeView, MalformedEvent>(o@))
                    },
                    Err(err) => {
                        &&& err == MalformedEvent::TimestampOutOfRange
                        &&& !renderable(effective_time(raw@, now))
                        &&& final(self)@ == old(self)@
                    },
                },
            },
    {
        match raw.check_required() {
            Err(e) => Err(e),
            Ok(()) => match local_time_text(raw.effective_time(now)) {
                None => Err(MalformedEvent::TimestampOutOfRange),
                Some(text) => {
                    let ghost raw_view = raw@;
                    let ghost text_view = text@;
                    let r = self.handle(raw, text);
                    assert(step(old(self)@, raw_view, text_view) == (self@, result_view(r)));
                    r
                },
            },
        }
    }
}

/// Delivering the same well-formed event twice gives a duplicate the second
/// time, however its instant was rendered each time; the first time it is
/// novel exactly when its fingerprint had not been seen, as on a fresh index.
pub proof fn redelivery_is_duplicate(
    seen: Set<u64>,
    raw: RawEventView,
    first_text: Seq<char>,
    second_text: Seq<char>,
)
    requires
        missing_field(raw) is None,
    ensures
        ({
            let (after_first, first) = step(seen, raw, first_text);
            let (after_second, second) = step(after_first, raw, second_text);
            &&& first is Ok
            &&& is_novel(first) <==> !seen.contains(raw_fingerprint(raw))
            &&& second == Ok::<OutcomeView, MalformedEvent>(
                OutcomeView::Duplicate { fingerprint: raw_fingerprint(raw) },
            )
            &&& after_second == after_first
        }),
        seen == Set::<u64>::empty() ==> is_novel(step(seen, raw, first_text).1),
{
}

/// On a fresh index, delivering `e1`, then `e2`, then `e1` again gives novel,
/// novel, duplicate, however each instant was rendered, provided the two
/// events' fingerprints differ (a collision makes `e2` a duplicate).
pub proof fn interleaved_redelivery(
    e1: RawEventView,
    e2: RawEventView,
    t1: Seq<char>,
    t2: Seq<char>,
    t3: Seq<char>,
)
    requires
        missing_field(e1) is None,
        missing_field(e2) is None,
        raw_fingerprint(e1) != raw_fingerprint(e2),
    ensures
        ({
            let (s1, o1) = step(Set::<u64>::empty(), e1, t1);
            let (s2, o2) = step(s1, e2, t2);
            let (s3, o3) = step(s2, e1, t3);
            &&& is_novel(o1)
            &&& is_novel(o2)
            &&& o3 == Ok::<OutcomeView, MalformedEvent>(
                OutcomeView::Duplicate { fingerprint: raw_fingerprint(e1) },
            )
        }),
{
}

} // verus!
