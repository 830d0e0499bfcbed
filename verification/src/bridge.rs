//! The bridge: one call marshalled into the UI runtime and back.
//!
//! A domain command becomes a script handed to the UI runtime, which runs
//! it whenever its single cooperative thread gets around to it; the calling
//! thread awaits the correlated reply through the single-slot channel with
//! a bounded wait.  Because the channel holds at most one reply and carries
//! no request identifiers, at most one bridge call may be in flight at a
//! time; `try_begin` grants that single flight and `finish` releases it.
//!
//! A timeout is not an error: the caller resolves it to the JSON `null`
//! sentinel so the control plane stays responsive behind a busy UI.

use crate::channel::ReplySlot;
use crate::jsonval::is_null_of;
use crate::jsonval::json_null;
use serde_json::Value;
use vstd::prelude::*;
use vstd::string::StringExecFns;

verus! {

/// How long a caller waits for the UI runtime's reply, in milliseconds.
pub const BRIDGE_TIMEOUT_MS: u64 = 250;

/// The abstract state of the bridge: the buffered reply and the tag of the
/// invocation it was delivered for, whether a call is in flight, and how
/// many calls have begun (the call in flight, when there is one, is call
/// number `calls`).
pub struct BridgeModel {
    /// The buffered reply, if one is pending.
    pub pending: Option<Value>,
    /// The number of the invocation the pending reply was delivered for.
    pub pending_tag: nat,
    /// Whether an invocation is in flight.
    pub busy: bool,
    /// How many invocations have begun.
    pub calls: nat,
}

/// A pending reply delivered while a call was in flight belongs to that
/// very call.
pub open spec fn model_wf(m: BridgeModel) -> bool {
    m.busy && m.pending is Some ==> m.pending_tag == m.calls
}

/// A new invocation begins: the bridge is claimed for call `calls + 1`.
pub open spec fn begin_m(m: BridgeModel) -> BridgeModel {
    BridgeModel { busy: true, calls: m.calls + 1, ..m }
}

/// The UI runtime delivers a reply: buffered when the slot is free, tagged
/// with the invocation now in flight; dropped otherwise.
pub open spec fn deliver_m(m: BridgeModel, v: Value) -> BridgeModel {
    if m.pending is Some {
        m
    } else {
        BridgeModel { pending: Some(v), pending_tag: m.calls, ..m }
    }
}

/// The invocation completes: the slot is drained and the flight released.
pub open spec fn finish_m(m: BridgeModel) -> BridgeModel {
    BridgeModel { pending: None, busy: false, ..m }
}

/// What the completing invocation observes: the pending reply, or nothing
/// after a timeout.
pub open spec fn finish_value_m(m: BridgeModel) -> Option<Value> {
    m.pending
}

/// The bridge: the correlation slot plus the single-flight state.
pub struct Bridge {
    chan: ReplySlot,
    busy: bool,
    calls: Ghost<nat>,
    tag: Ghost<nat>,
}

impl Bridge {
    /// The abstract state of this bridge.
    pub closed spec fn model(&self) -> BridgeModel {
        BridgeModel {
            pending: self.chan.pending(),
            pending_tag: self.tag@,
            busy: self.busy,
            calls: self.calls@,
        }
    }

    /// The bridge is well formed: a pending reply delivered while a call
    /// was in flight belongs to that very call.
    pub open spec fn wf(&self) -> bool {
        model_wf(self.model())
    }

    /// Creates a free bridge with an empty slot.
    pub fn new() -> (b: Bridge)
        ensures
            b.model() == (BridgeModel {
                pending: None,
                pending_tag: 0,
                busy: false,
                calls: 0,
            }),
            b.wf(),
    {
        Bridge { chan: ReplySlot::new(), busy: false, calls: Ghost(0), tag: Ghost(0) }
    }

    /// Claims the bridge for one invocation.  The claim is granted only
    /// when no call is in flight and no stale reply is buffered: the
    /// single-flight discipline that keeps replies correlated.
    pub fn try_begin(&mut self) -> (r: bool)
        requires
            old(self).wf(),
        ensures
            final(self).wf(),
            r == (!old(self).model().busy && old(self).model().pending is None),
            r ==> final(self).model() == begin_m(old(self).model()),
            !r ==> final(self).model() == old(self).model(),
    {
        if self.busy {
            return false;
        }
        if !self.chan.is_empty() {
            return false;
        }
        self.busy = true;
        self.calls = Ghost(self.calls@ + 1);
        true
    }

    /// Called from the UI-execution context once a script finishes: buffers
    /// the reply for the awaiting caller.  Delivery with no one awaiting is
    /// not an error; the slot keeps at most one reply.
    pub fn deliver_reply(&mut self, v: Value)
        requires
            old(self).wf(),
        ensures
            final(self).wf(),
            final(self).model() == deliver_m(old(self).model(), v),
    {
        let empty = self.chan.is_empty();
        if empty {
            self.chan.deliver(v);
            self.tag = Ghost(self.calls@);
        }
    }

    /// Completes the invocation in flight: drains the slot and releases the
    /// bridge.  `None` is the timeout outcome: no reply arrived within the
    /// caller's bounded wait.  A reply observed by an invocation was
    /// delivered for that very invocation, never for another.
    pub fn finish(&mut self) -> (r: Option<Value>)
        requires
            old(self).wf(),
        ensures
            final(self).wf(),
            r == finish_value_m(old(self).model()),
            final(self).model() == finish_m(old(self).model()),
            old(self).model().busy && r is Some ==> old(self).model().pending_tag == old(
                self,
            ).model().calls,
    {
        let r = self.chan.take();
        self.busy = false;
        r
    }

    /// Whether a call is in flight.
    pub fn is_busy(&self) -> (r: bool)
        ensures
            r == self.model().busy,
    {
        self.busy
    }
}

/// The value an invocation yields at the HTTP layer: the reply itself, or
/// the JSON `null` "no value" sentinel after a timeout.
pub fn resolve_reply(r: Option<Value>) -> (v: Value)
    ensures
        r matches Some(x) ==> v == x,
        r is None ==> is_null_of(v),
{
    match r {
        Some(x) => x,
        None => json_null(),
    }
}

/// The script handed to the UI runtime for one invocation: the caller's
/// script wrapped so that the UI runtime's conventional reply path posts
/// its result back into the correlation channel.
pub fn eval_payload(script: &str) -> (r: String)
    ensures
        r@ == "window.__TAURI__.invoke('plugin:rpc|handle_js_return', {input: "@ + script@
            + "})"@,
{
    let mut s = "window.__TAURI__.invoke('plugin:rpc|handle_js_return', {input: ".to_owned();
    s.append(script);
    s.append("})");
    s
}

/// Round trip: when the UI runtime executes the script of the invocation in
/// flight and replies before the caller's wait elapses, the invocation
/// observes exactly that reply.
pub proof fn lemma_bridge_round_trip(m0: BridgeModel, v: Value)
    requires
        model_wf(m0),
        !m0.busy,
        m0.pending is None,
    ensures
        ({
            let m1 = begin_m(m0);
            let m2 = deliver_m(m1, v);
            finish_value_m(m2) == Some(v)
        }),
{
}

/// Timeout: when no reply arrives during the invocation in flight, the
/// invocation observes no value, and no reply remains buffered afterwards.
pub proof fn lemma_bridge_timeout(m0: BridgeModel)
    requires
        model_wf(m0),
        !m0.busy,
        m0.pending is None,
    ensures
        ({
            let m1 = begin_m(m0);
            finish_value_m(m1) is None && finish_m(m1).pending is None
        }),
{
}

/// Single-flight: two invocations serialized by the bridge discipline never
/// observe each other's reply.  The first invocation observes the reply
/// delivered while it was in flight, and the second, begun only after the
/// first fully completed, observes the reply delivered during its own
/// flight, under distinct invocation numbers.
pub proof fn lemma_single_flight(m0: BridgeModel, va: Value, vb: Value)
    requires
        model_wf(m0),
        !m0.busy,
        m0.pending is None,
    ensures
        ({
            let a = begin_m(m0);
            let a_delivered = deliver_m(a, va);
            let a_done = finish_m(a_delivered);
            let b = begin_m(a_done);
            let b_delivered = deliver_m(b, vb);
            &&& finish_value_m(a_delivered) == Some(va)
            &&& a_delivered.pending_tag == a.calls
            &&& finish_value_m(b_delivered) == Some(vb)
            &&& b_delivered.pending_tag == b.calls
            &&& a.calls != b.calls
        }),
{
}

} // verus!
