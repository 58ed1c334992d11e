//! Sinks that receive the structural events emitted by limiters.

use std::sync::Arc;

use vstd::prelude::*;

use crate::models::Event;

verus! {

/// Receives the events a limiter emits. Implemented by users to record or
/// forward instrumentation; nothing about an implementation is assumed.
pub trait EventSink: Send + Sync {
    fn emit(&self, event: Event);
}

/// Shared sinks forward to the sink they point to.
impl<T: EventSink> EventSink for Arc<T> {
    fn emit(&self, event: Event) {
        (**self).emit(event)
    }
}

/// Default sink that drops every event.
#[derive(Clone, Copy, Debug)]
pub struct NoopEventSink;

impl EventSink for NoopEventSink {
    fn emit(&self, _event: Event) {
    }
}

/// Hands `events` to `sink`, in order.
pub fn emit_all<S: EventSink>(sink: &S, events: Vec<Event>) {
    let n = events.len();
    let mut i: usize = 0;
    while i < n
        invariant
            n == events.len(),
            i <= n,
        decreases n - i,
    {
        sink.emit(events[i]);
        i = i + 1;
    }
}

} // verus!
