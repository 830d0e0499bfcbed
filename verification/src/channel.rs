//! The correlation channel: a single-slot hand-off for one reply.
//!
//! One call is moved from the HTTP-serving context into the UI-execution
//! context and back through this slot.  A reply delivered with nobody
//! waiting is not an error: it is buffered for the next take, and the slot
//! has capacity for exactly one outstanding reply, so a second delivery
//! while one is pending is dropped.  That capacity of one is why callers
//! must keep at most one bridge call in flight at a time (see `bridge`).

use serde_json::Value;
use vstd::prelude::*;

verus! {

/// A single-slot buffer for the reply of one bridge call.
pub struct ReplySlot {
    value: Option<Value>,
}

impl ReplySlot {
    /// The buffered reply, if one is pending.
    pub closed spec fn pending(&self) -> Option<Value> {
        self.value
    }

    /// Creates an empty slot.
    pub fn new() -> (r: ReplySlot)
        ensures
            r.pending() is None,
    {
        ReplySlot { value: None }
    }

    /// Whether no reply is pending.
    pub fn is_empty(&self) -> (r: bool)
        ensures
            r == (self.pending() is None),
    {
        self.value.is_none()
    }

    /// Buffers a reply for the next take.  The slot keeps at most one
    /// reply: one delivered while another is pending is dropped.
    pub fn deliver(&mut self, v: Value)
        ensures
            final(self).pending() == if old(self).pending() is Some {
                old(self).pending()
            } else {
                Some(v)
            },
    {
        if self.value.is_none() {
            self.value = Some(v);
        }
    }

    /// Takes the pending reply, leaving the slot empty.
    pub fn take(&mut self) -> (r: Option<Value>)
        ensures
            r == old(self).pending(),
            final(self).pending() is None,
    {
        self.value.take()
    }
}

} // verus!
