use vstd::prelude::*;
use crate::ids::{SpanId, TraceId, is_v4_layout};
use crate::options::TraceOptions;
use crate::state::TraceState;

verus! {

#[verifier::external_type_specification]
#[verifier::external_body]
pub struct ExSystemTime(std::time::SystemTime);

/// Relies on `SystemTime::now`: the current wall-clock time. Nothing is
/// promised of it; successive readings need not increase.
#[verifier::external_body]
fn wall_clock() -> (r: std::time::SystemTime) {
    std::time::SystemTime::now()
}

/// Relies on `SystemTime::duration_since(UNIX_EPOCH)`: the whole nanoseconds
/// from the Unix epoch to `t`, `None` where `t` is earlier than the epoch.
#[verifier::external_body]
fn nanos_since_epoch(t: &std::time::SystemTime) -> (r: Option<u128>) {
    t.duration_since(std::time::UNIX_EPOCH).ok().map(|d| d.as_nanos())
}

/// The wall clock in nanoseconds since the Unix epoch; a clock set before the
/// epoch reads as the epoch itself.
fn now_nanos() -> (r: u128) {
    let t = wall_clock();
    match nanos_since_epoch(&t) {
        Some(nanos) => nanos,
        None => 0,
    }
}

/// The flags of an optional register, as a set of bit indices.
pub open spec fn options_view(o: Option<TraceOptions>) -> Option<Set<nat>> {
    match o {
        Some(x) => Some(x@),
        None => None,
    }
}

/// The entries of an optional trace state, in order.
pub open spec fn state_view(s: Option<TraceState>) -> Option<Seq<(Seq<char>, Seq<char>)>> {
    match s {
        Some(x) => Some(x@),
        None => None,
    }
}

fn copy_options(o: &Option<TraceOptions>) -> (r: Option<TraceOptions>)
    ensures
        options_view(r) == options_view(*o),
{
    match o {
        Some(x) => Some(x.copy()),
        None => None,
    }
}

fn copy_state(s: &Option<TraceState>) -> (r: Option<TraceState>)
    ensures
        state_view(r) == state_view(*s),
{
    match s {
        Some(x) => Some(x.copy()),
        None => None,
    }
}

/// When a span started and, once it is closed, when it ended, in nanoseconds
/// since the Unix epoch. Only closing sets the end time, and it is never
/// earlier than the start time.
#[derive(Debug)]
pub struct Timing {
    start: u128,
    end: Option<u128>,
}

impl Timing {
    #[verifier::type_invariant]
    spec fn inv(self) -> bool {
        self.end is Some ==> self.end->0 >= self.start
    }

    /// When the span started.
    pub closed spec fn started_at(&self) -> u128 {
        self.start
    }

    /// `None` while the span is open.
    pub closed spec fn ended_at(&self) -> Option<u128> {
        self.end
    }

    /// Open, started at `start`.
    pub fn open_at(start: u128) -> (r: Timing)
        ensures
            r.started_at() == start,
            r.ended_at() is None,
    {
        Timing { start, end: None }
    }

    /// Records the end at `now`, or at the start where the clock reads
    /// earlier; an end already recorded is kept.
    pub fn close_at(&mut self, now: u128)
        ensures
            final(self).started_at() == old(self).started_at(),
            final(self).ended_at() is Some,
            final(self).ended_at()->0 >= final(self).started_at(),
            old(self).ended_at() is Some ==> final(self).ended_at() == old(self).ended_at(),
            old(self).ended_at() is None ==> final(self).ended_at() == Some(
                if now >= old(self).started_at() {
                    now
                } else {
                    old(self).started_at()
                },
            ),
    {
        proof {
            use_type_invariant(&*self);
        }
        if self.end.is_none() {
            let end = if now >= self.start {
                now
            } else {
                self.start
            };
            *self = Timing { start: self.start, end: Some(end) };
        }
    }

    /// When the span started.
    pub fn start_time(&self) -> (r: u128)
        ensures
            r == self.started_at(),
    {
        self.start
    }

    /// When the span ended; `None` while it is open.
    pub fn end_time(&self) -> (r: Option<u128>)
        ensures
            r == self.ended_at(),
            r is Some ==> r->0 >= self.started_at(),
    {
        proof {
            use_type_invariant(self);
        }
        self.end
    }
}

/// A local unit of work.
#[derive(Debug)]
pub struct Span {
    pub trace_id: TraceId,
    pub span_id: SpanId,
    pub parent_id: Option<SpanId>,
    pub options: Option<TraceOptions>,
    pub state: Option<TraceState>,
    pub timing: Timing,
}

/// The identity of a span, as carried across a process or service boundary.
#[derive(Debug)]
pub struct SpanContext {
    pub trace_id: TraceId,
    /// The identifier of the span this context was taken from.
    pub span_id: SpanId,
    pub options: Option<TraceOptions>,
    pub state: Option<TraceState>,
}

/// `c` holds exactly the identity of `s`: its trace, its own span identifier,
/// its options and its state.
pub open spec fn carries(c: SpanContext, s: Span) -> bool {
    &&& c.trace_id == s.trace_id
    &&& c.span_id == s.span_id
    &&& options_view(c.options) == options_view(s.options)
    &&& state_view(c.state) == state_view(s.state)
}

/// `child` is an open span started from context `c`: same trace, options and
/// state, the context's span as its parent, and an identifier of its own.
pub open spec fn started_from(child: Span, c: SpanContext) -> bool {
    &&& child.trace_id == c.trace_id
    &&& child.parent_id == Some(c.span_id)
    &&& child.span_id != c.span_id
    &&& options_view(child.options) == options_view(c.options)
    &&& state_view(child.state) == state_view(c.state)
    &&& child.ended_at() is None
}

/// `after` is `before` once closed: identity and start time unchanged, an end
/// time no earlier than the start, and an end time already recorded kept.
pub open spec fn closed_from(after: Span, before: Span) -> bool {
    &&& after.trace_id == before.trace_id
    &&& after.span_id == before.span_id
    &&& after.parent_id == before.parent_id
    &&& after.options == before.options
    &&& after.state == before.state
    &&& after.started_at() == before.started_at()
    &&& after.ended_at() is Some
    &&& after.ended_at()->0 >= after.started_at()
    &&& before.ended_at() is Some ==> after.ended_at() == before.ended_at()
}

impl Span {
    /// When the span started.
    pub open spec fn started_at(&self) -> u128 {
        self.timing.started_at()
    }

    /// When the span was closed; `None` while it is open.
    pub open spec fn ended_at(&self) -> Option<u128> {
        self.timing.ended_at()
    }

    /// A root span from identifiers and a start time already at hand: no
    /// parent, open.
    pub fn root_with(
        trace_id: TraceId,
        span_id: SpanId,
        options: Option<TraceOptions>,
        state: Option<TraceState>,
        start_time: u128,
    ) -> (r: Span)
        ensures
            r.trace_id == trace_id,
            r.span_id == span_id,
            r.parent_id is None,
            r.options == options,
            r.state == state,
            r.started_at() == start_time,
            r.ended_at() is None,
    {
        Span {
            trace_id,
            span_id,
            parent_id: None,
            options,
            state,
            timing: Timing::open_at(start_time),
        }
    }

    /// A root span: the given trace, or a freshly minted one; a freshly minted
    /// span identifier; no parent; open, started now.
    pub fn new(trace: Option<TraceId>, options: Option<TraceOptions>, state: Option<TraceState>) -> (r: Span)
        ensures
            trace is Some ==> r.trace_id == trace->0,
            trace is None ==> is_v4_layout(r.trace_id.0),
            r.parent_id is None,
            r.options == options,
            r.state == state,
            r.ended_at() is None,
    {
        let trace_id = match trace {
            Some(id) => id,
            None => TraceId::new(),
        };
        Span::root_with(trace_id, SpanId::new(), options, state, now_nanos())
    }

    /// A local child from a drawn identifier and a start time already at hand.
    /// Options and state are not inherited. The identifier is `draw`, changed
    /// as `SpanId::avoiding` does where it equals the parent's.
    pub fn child_with(parent_id: Option<SpanId>, trace_id: TraceId, draw: SpanId, start_time: u128) -> (r: Span)
        ensures
            r.trace_id == trace_id,
            r.parent_id == parent_id,
            parent_id is None ==> r.span_id == draw,
            parent_id is Some ==> r.span_id == SpanId::avoiding_spec(draw, parent_id->0),
            parent_id is Some ==> r.span_id != parent_id->0,
            r.options is None,
            r.state is None,
            r.started_at() == start_time,
            r.ended_at() is None,
    {
        let span_id = match parent_id {
            Some(p) => SpanId::avoiding(draw, p),
            None => draw,
        };
        Span {
            trace_id,
            span_id,
            parent_id,
            options: None,
            state: None,
            timing: Timing::open_at(start_time),
        }
    }

    /// A local child in `trace_id` under `parent_id`, with a freshly minted
    /// identifier that differs from the parent's; options and state are not
    /// inherited. Open, started now.
    pub fn child(parent_id: Option<SpanId>, trace_id: TraceId) -> (r: Span)
        ensures
            r.trace_id == trace_id,
            r.parent_id == parent_id,
            parent_id is Some ==> r.span_id != parent_id->0,
            r.options is None,
            r.state is None,
            r.ended_at() is None,
    {
        Span::child_with(parent_id, trace_id, SpanId::new(), now_nanos())
    }

    /// The span started from a received context, given a drawn identifier and
    /// a start time already at hand.
    pub fn from_context_with(context: &SpanContext, draw: SpanId, start_time: u128) -> (r: Span)
        ensures
            started_from(r, *context),
            r.span_id == SpanId::avoiding_spec(draw, context.span_id),
            r.started_at() == start_time,
    {
        Span {
            trace_id: context.trace_id,
            span_id: SpanId::avoiding(draw, context.span_id),
            parent_id: Some(context.span_id),
            options: copy_options(&context.options),
            state: copy_state(&context.state),
            timing: Timing::open_at(start_time),
        }
    }

    /// Starts a child from a received context: the context's span becomes the
    /// parent, a fresh identifier is minted, and trace, options and state are
    /// inherited unchanged. Open, started now.
    pub fn from_context(context: &SpanContext) -> (r: Span)
        ensures
            started_from(r, *context),
    {
        Span::from_context_with(context, SpanId::new(), now_nanos())
    }

    /// Closes the span at time `now`. The end time is `now`, or the start time
    /// where the clock reads earlier; a span already closed keeps its end time.
    pub fn close_at(&mut self, now: u128)
        ensures
            closed_from(*final(self), *old(self)),
            old(self).ended_at() is None ==> final(self).ended_at() == Some(
                if now >= old(self).started_at() {
                    now
                } else {
                    old(self).started_at()
                },
            ),
    {
        self.timing.close_at(now);
    }

    /// Closes the span now. Closing it again leaves the first end time.
    pub fn close(&mut self)
        ensures
            closed_from(*final(self), *old(self)),
    {
        let now = now_nanos();
        self.close_at(now)
    }

    /// When the span started.
    pub fn start_time(&self) -> (r: u128)
        ensures
            r == self.started_at(),
    {
        self.timing.start_time()
    }

    /// When the span was closed; `None` while it is open.
    pub fn end_time(&self) -> (r: Option<u128>)
        ensures
            r == self.ended_at(),
    {
        self.timing.end_time()
    }

    /// Whether the span has been closed.
    pub fn is_closed(&self) -> (r: bool)
        ensures
            r == (self.ended_at() is Some),
    {
        self.timing.end_time().is_some()
    }
}

impl SpanContext {
    /// A context for a new trace position: the given trace, or a freshly
    /// minted one; a freshly minted span identifier; no options or state.
    pub fn new(trace: Option<TraceId>) -> (r: SpanContext)
        ensures
            trace is Some ==> r.trace_id == trace->0,
            trace is None ==> is_v4_layout(r.trace_id.0),
            r.options is None,
            r.state is None,
    {
        let trace_id = match trace {
            Some(id) => id,
            None => TraceId::new(),
        };
        SpanContext { trace_id, span_id: SpanId::new(), options: None, state: None }
    }

    /// Takes the identity of a span for crossing a boundary. Mints nothing.
    pub fn extract(span: &Span) -> (r: SpanContext)
        ensures
            carries(r, *span),
    {
        SpanContext {
            trace_id: span.trace_id,
            span_id: span.span_id,
            options: copy_options(&span.options),
            state: copy_state(&span.state),
        }
    }
}

/// Round trip through a context: a child started from the context taken from
/// `s` is in the same trace, has the same options and state, has `s` as its
/// parent, and has an identifier other than that of `s`.
pub proof fn lemma_context_round_trip(s: Span, c: SpanContext, child: Span)
    requires
        carries(c, s),
        started_from(child, c),
    ensures
        child.trace_id == s.trace_id,
        options_view(child.options) == options_view(s.options),
        state_view(child.state) == state_view(s.state),
        child.parent_id == Some(s.span_id),
        child.span_id != s.span_id,
        child.ended_at() is None,
{
}

/// Closing is terminal: once a fresh span is closed it has an end time no
/// earlier than its start, and closing it again keeps that end time.
pub proof fn lemma_close_twice(fresh: Span, once: Span, twice: Span)
    requires
        fresh.ended_at() is None,
        closed_from(once, fresh),
        closed_from(twice, once),
    ensures
        once.ended_at() is Some,
        once.ended_at()->0 >= once.started_at(),
        twice.ended_at() == once.ended_at(),
        twice.started_at() == fresh.started_at(),
{
}

} // verus!
