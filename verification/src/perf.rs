//! Performance spans.  A guard marks a span: an event is recorded when it is
//! made and another when it is dropped, both carrying the span's id.  The
//! events are written to a database around this module; here they are made.
use vstd::prelude::*;

verus! {

/// One row of the events table.
pub struct PerfEvent {
    pub name: &'static str,
    pub span_id: Option<i64>,
    pub window_id: Option<usize>,
    pub metadata: Option<String>,
    pub nanoseconds: i64,
}

/// The span ids handed out: each is the one after the last, wrapping
/// around, starting from the smallest `i64`.
pub struct SpanIds {
    next: i64,
}

impl SpanIds {
    pub closed spec fn spec_next(&self) -> i64 {
        self.next
    }

    /// No id handed out yet.
    pub fn new() -> (s: SpanIds)
        ensures
            s.spec_next() == i64::MIN,
    {
        SpanIds { next: i64::MIN }
    }

    /// A fresh span id.
    pub fn next_id(&mut self) -> (id: i64)
        ensures
            id == old(self).spec_next(),
            final(self).spec_next() == if id == i64::MAX {
                i64::MIN
            } else {
                (id + 1) as i64
            },
    {
        let id = self.next;
        self.next = if id == i64::MAX {
            i64::MIN
        } else {
            id + 1
        };
        id
    }
}

/// A span that is being measured.
pub struct PerfGuard {
    name: &'static str,
    span_id: i64,
    window_id: Option<usize>,
    metadata: Option<String>,
}

impl PerfGuard {
    pub closed spec fn spec_name(&self) -> &'static str {
        self.name
    }

    pub closed spec fn spec_span_id(&self) -> i64 {
        self.span_id
    }

    pub closed spec fn spec_window_id(&self) -> Option<usize> {
        self.window_id
    }

    pub closed spec fn spec_metadata(&self) -> Option<String> {
        self.metadata
    }

    /// Opens the span `name` with a fresh id, and gives the event that marks
    /// its start at `now` (nanoseconds since the application started).
    pub fn new(
        name: &'static str,
        window_id: Option<usize>,
        metadata: Option<String>,
        ids: &mut SpanIds,
        now: i64,
    ) -> (r: (PerfGuard, PerfEvent))
        ensures
            r.0.spec_name() == name,
            r.0.spec_span_id() == old(ids).spec_next(),
            r.0.spec_window_id() == window_id,
            r.0.spec_metadata() == metadata,
            r.1.name == name,
            r.1.span_id == Some(old(ids).spec_next()),
            r.1.window_id == window_id,
            r.1.metadata == metadata,
            r.1.nanoseconds == now,
            final(ids).spec_next() == if old(ids).spec_next() == i64::MAX {
                i64::MIN
            } else {
                (old(ids).spec_next() + 1) as i64
            },
    {
        let span_id = ids.next_id();
        let event = PerfEvent {
            name,
            span_id: Some(span_id),
            window_id,
            metadata: metadata.clone(),
            nanoseconds: now,
        };
        (PerfGuard { name, span_id, window_id, metadata }, event)
    }

    /// Closes the span at `now`: the event that marks its end takes the
    /// span's metadata, which the guard no longer holds.
    pub fn finish(&mut self, now: i64) -> (e: PerfEvent)
        ensures
            e.name == old(self).spec_name(),
            e.span_id == Some(old(self).spec_span_id()),
            e.window_id == old(self).spec_window_id(),
            e.metadata == old(self).spec_metadata(),
            e.nanoseconds == now,
            final(self).spec_metadata() is None,
            final(self).spec_name() == old(self).spec_name(),
            final(self).spec_span_id() == old(self).spec_span_id(),
            final(self).spec_window_id() == old(self).spec_window_id(),
    {
        let metadata = self.metadata.take();
        PerfEvent {
            name: self.name,
            span_id: Some(self.span_id),
            window_id: self.window_id,
            metadata,
            nanoseconds: now,
        }
    }
}

/// Opens the span `name`: the guard, and the event that marks its start.
pub fn measure_lifetime(
    name: &'static str,
    window_id: Option<usize>,
    metadata: Option<String>,
    ids: &mut SpanIds,
    now: i64,
) -> (r: (PerfGuard, PerfEvent))
    ensures
        r.0.spec_name() == name,
        r.0.spec_span_id() == old(ids).spec_next(),
        r.0.spec_window_id() == window_id,
        r.0.spec_metadata() == metadata,
        r.1.name == name,
        r.1.span_id == Some(old(ids).spec_next()),
        r.1.window_id == window_id,
        r.1.metadata == metadata,
        r.1.nanoseconds == now,
        final(ids).spec_next() == if old(ids).spec_next() == i64::MAX {
            i64::MIN
        } else {
            (old(ids).spec_next() + 1) as i64
        },
{
    PerfGuard::new(name, window_id, metadata, ids, now)
}

/// The event of a moment that belongs to no span.
pub fn record_event(
    name: &'static str,
    window_id: Option<usize>,
    metadata: Option<String>,
    now: i64,
) -> (e: PerfEvent)
    ensures
        e.name == name,
        e.span_id is None,
        e.window_id == window_id,
        e.metadata == metadata,
        e.nanoseconds == now,
{
    PerfEvent { name, span_id: None, window_id, metadata, nanoseconds: now }
}

} // verus!
