//! Identity and propagation of trace spans: trace and span identifiers, the
//! sampling flags register, vendor trace state, and the conversions between a
//! live span and the context that carries its identity across a boundary.

pub mod ids;
pub mod options;
pub mod state;
pub mod span;

pub use ids::{SpanId, TraceId};
pub use options::TraceOptions;
pub use state::{TracePair, TraceState};
pub use span::{Span, SpanContext, Timing};
