use std::collections::HashSet;

use trace_core::{Span, SpanContext, SpanId, TraceId, TraceOptions, TraceState};

#[test]
fn it_works() {
    assert_eq!(2 + 2, 4);
}

#[test]
fn span_ids_do_not_repeat() {
    let mut seen = HashSet::new();
    for _ in 0..100_000 {
        assert!(seen.insert(SpanId::new()));
    }
}

#[test]
fn trace_ids_do_not_repeat() {
    let mut seen = HashSet::new();
    for _ in 0..100_000 {
        assert!(seen.insert(TraceId::new()));
    }
}

#[test]
fn trace_id_has_version_4_layout() {
    for _ in 0..100 {
        let id = TraceId::new().0;
        assert_eq!((id >> 76) & 0xF, 4);
        assert_eq!((id >> 62) & 0x3, 0b10);
    }
}

#[test]
fn options_start_clear() {
    let opts = TraceOptions::new();
    assert!(!opts.is_sampling());
    for bit in 0..8 {
        assert!(!opts.is_set(bit));
    }
    assert!(!opts.is_set(8));
    assert!(!opts.is_set(100));
}

#[test]
fn setting_bit_one_turns_sampling_on_and_keeps_other_bits() {
    let mut opts = TraceOptions::new();
    opts.set(0, true);
    opts.set(5, true);
    opts.set(7, true);
    assert!(!opts.is_sampling());
    opts.set(1, true);
    assert!(opts.is_sampling());
    assert!(opts.is_set(0));
    assert!(opts.is_set(5));
    assert!(opts.is_set(7));
    assert!(!opts.is_set(2));
    opts.set_sampling(false);
    assert!(!opts.is_sampling());
    assert!(opts.is_set(0));
    assert!(opts.is_set(5));
    assert!(opts.is_set(7));
}

#[test]
fn options_copy_keeps_every_bit() {
    let mut opts = TraceOptions::new();
    opts.set_sampling(true);
    opts.set(6, true);
    let copy = opts.copy();
    for bit in 0..8 {
        assert_eq!(copy.is_set(bit), bit == 1 || bit == 6);
    }
}

#[test]
fn state_push_and_copy_keep_order() {
    let mut state = TraceState::new();
    state.push("vendor".to_string(), "a".to_string());
    state.push("other".to_string(), "b".to_string());
    state.push("vendor".to_string(), "c".to_string());
    let copy = state.copy();
    let got: Vec<(&str, &str)> = copy.pairs.iter().map(|p| (p.key.as_str(), p.value.as_str())).collect();
    assert_eq!(got, vec![("vendor", "a"), ("other", "b"), ("vendor", "c")]);
}

#[test]
fn avoiding_keeps_a_distinct_draw() {
    let draw = SpanId([1, 2, 3, 4, 5, 6, 7, 8]);
    let taken = SpanId([9, 2, 3, 4, 5, 6, 7, 8]);
    assert_eq!(SpanId::avoiding(draw, taken), draw);
}

#[test]
fn avoiding_flips_the_low_bit_of_an_equal_draw() {
    let draw = SpanId([1, 2, 3, 4, 5, 6, 7, 8]);
    let r = SpanId::avoiding(draw, draw);
    assert_eq!(r, SpanId([0, 2, 3, 4, 5, 6, 7, 8]));
    assert_ne!(r, draw);
}

#[test]
fn root_span_mints_ids_and_has_no_parent() {
    let span = Span::new(None, None, None);
    assert!(span.parent_id.is_none());
    assert!(span.options.is_none());
    assert!(span.state.is_none());
    assert_eq!(span.end_time(), None);
    assert!(!span.is_closed());
}

#[test]
fn root_span_keeps_a_given_trace() {
    let span = Span::new(Some(TraceId(42)), None, None);
    assert_eq!(span.trace_id, TraceId(42));
}

#[test]
fn two_roots_have_different_traces() {
    let a = Span::new(None, None, None);
    let b = Span::new(None, None, None);
    assert_ne!(a.trace_id, b.trace_id);
    assert!(a.parent_id.is_none());
    assert!(b.parent_id.is_none());
}

#[test]
fn root_with_is_exact() {
    let span = Span::root_with(TraceId(7), SpanId([1; 8]), None, None, 1000);
    assert_eq!(span.trace_id, TraceId(7));
    assert_eq!(span.span_id, SpanId([1; 8]));
    assert_eq!(span.parent_id, None);
    assert_eq!(span.start_time(), 1000);
    assert_eq!(span.end_time(), None);
}

#[test]
fn close_stamps_end_once() {
    let mut span = Span::new(None, None, None);
    assert_eq!(span.end_time(), None);
    span.close();
    let end = span.end_time().expect("closed span has an end time");
    assert!(end >= span.start_time());
    span.close();
    assert_eq!(span.end_time(), Some(end));
    assert!(span.is_closed());
}

#[test]
fn close_at_never_ends_before_start() {
    let mut span = Span::root_with(TraceId(1), SpanId([2; 8]), None, None, 100);
    span.close_at(40);
    assert_eq!(span.end_time(), Some(100));
    span.close_at(500);
    assert_eq!(span.end_time(), Some(100));
}

#[test]
fn close_at_records_a_later_time() {
    let mut span = Span::root_with(TraceId(1), SpanId([2; 8]), None, None, 100);
    span.close_at(250);
    assert_eq!(span.end_time(), Some(250));
    span.close_at(900);
    assert_eq!(span.end_time(), Some(250));
}

#[test]
fn local_child_takes_parent_and_trace_but_no_options() {
    let parent = SpanId([3; 8]);
    let child = Span::child(Some(parent), TraceId(99));
    assert_eq!(child.parent_id, Some(parent));
    assert_eq!(child.trace_id, TraceId(99));
    assert_ne!(child.span_id, parent);
    assert!(child.options.is_none());
    assert!(child.state.is_none());
    assert_eq!(child.end_time(), None);
}

#[test]
fn child_with_avoids_the_parent_id() {
    let parent = SpanId([3; 8]);
    let child = Span::child_with(Some(parent), TraceId(5), parent, 10);
    assert_eq!(child.span_id, SpanId([2, 3, 3, 3, 3, 3, 3, 3]));
    let other = Span::child_with(None, TraceId(5), parent, 10);
    assert_eq!(other.span_id, parent);
    assert_eq!(other.parent_id, None);
}

#[test]
fn extract_copies_identity() {
    let mut opts = TraceOptions::new();
    opts.set_sampling(true);
    opts.set(4, true);
    let mut state = TraceState::new();
    state.push("k".to_string(), "v".to_string());
    let span = Span::new(Some(TraceId(12)), Some(opts), Some(state));
    let ctx = SpanContext::extract(&span);
    assert_eq!(ctx.trace_id, span.trace_id);
    assert_eq!(ctx.span_id, span.span_id);
    let copied = ctx.options.as_ref().unwrap();
    assert!(copied.is_sampling());
    assert!(copied.is_set(4));
    assert!(!copied.is_set(3));
    let st = ctx.state.as_ref().unwrap();
    assert_eq!(st.pairs.len(), 1);
    assert_eq!(st.pairs[0].key, "k");
    assert_eq!(st.pairs[0].value, "v");
}

#[test]
fn round_trip_through_context() {
    let mut opts = TraceOptions::new();
    opts.set_sampling(true);
    opts.set(7, true);
    let mut state = TraceState::new();
    state.push("a".to_string(), "1".to_string());
    state.push("b".to_string(), "2".to_string());
    let s = Span::new(None, Some(opts), Some(state));
    let c = SpanContext::extract(&s);
    let child = Span::from_context(&c);
    assert_eq!(child.trace_id, s.trace_id);
    assert_eq!(child.parent_id, Some(s.span_id));
    assert_ne!(child.span_id, s.span_id);
    let o = child.options.as_ref().unwrap();
    for bit in 0..8 {
        assert_eq!(o.is_set(bit), s.options.as_ref().unwrap().is_set(bit));
    }
    let got: Vec<(String, String)> =
        child.state.as_ref().unwrap().pairs.iter().map(|p| (p.key.clone(), p.value.clone())).collect();
    assert_eq!(got, vec![("a".to_string(), "1".to_string()), ("b".to_string(), "2".to_string())]);
}

#[test]
fn from_context_with_is_exact() {
    let ctx = SpanContext { trace_id: TraceId(3), span_id: SpanId([4; 8]), options: None, state: None };
    let child = Span::from_context_with(&ctx, SpanId([5; 8]), 77);
    assert_eq!(child.trace_id, TraceId(3));
    assert_eq!(child.parent_id, Some(SpanId([4; 8])));
    assert_eq!(child.span_id, SpanId([5; 8]));
    assert_eq!(child.start_time(), 77);
    let clash = Span::from_context_with(&ctx, SpanId([4; 8]), 77);
    assert_eq!(clash.span_id, SpanId([5, 4, 4, 4, 4, 4, 4, 4]));
}

#[test]
fn root_context_child_scenario() {
    let root = Span::new(None, None, None);
    let ctx = SpanContext::extract(&root);
    let mut child = Span::from_context(&ctx);
    assert_eq!(child.trace_id, root.trace_id);
    assert_eq!(child.parent_id, Some(root.span_id));
    assert_ne!(child.span_id, root.span_id);
    assert_eq!(child.end_time(), None);
    child.close();
    assert!(child.end_time().is_some());
}

#[test]
fn context_new_mints_or_keeps_trace() {
    let kept = SpanContext::new(Some(TraceId(8)));
    assert_eq!(kept.trace_id, TraceId(8));
    assert!(kept.options.is_none());
    assert!(kept.state.is_none());
    let minted = SpanContext::new(None);
    assert_eq!((minted.trace_id.0 >> 76) & 0xF, 4);
}
