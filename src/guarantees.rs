//! Facts about sequences of scheduler operations.
use vstd::prelude::*;

use crate::interface::{lemma_next_exists, lemma_next_unique, InterfaceView, SendError};
use crate::structs::RequestPayload;

verus! {

/// Once a request has been handed out, a second send fails with
/// `RequestInFlight` and leaves the state, and so the in-flight slot, as it was.
pub proof fn lemma_single_in_flight(v: InterfaceView)
    requires
        v.wf(),
        v.send_outcome() is Ok,
    ensures
        v.after_send().queued_id == Some(v.send_outcome()->Ok_0 as usize),
        v.after_send().send_outcome() == Err::<int, SendError>(SendError::RequestInFlight),
        v.after_send().after_send() == v.after_send(),
{
}

/// Queuing twice on a slot before it is sent leaves the state that queuing the
/// second payload alone gives: the slot waits once, with the second payload,
/// and stops waiting when it is sent.
pub proof fn lemma_coalescing(v: InterfaceView, id: int, x: RequestPayload, y: RequestPayload)
    requires
        v.wf(),
        0 <= id < v.slot_count(),
    ensures
        v.queued(id, x).queued(id, y) == v.queued(id, y),
        v.queued(id, y).enabled(id),
        v.queued(id, y).payloads[id] == Some(y),
        !v.queued(id, y).sent(id).enabled(id),
{
    assert(v.queued(id, x).queued(id, y).payloads =~= v.queued(id, y).payloads);
    assert(v.queued(id, x).queued(id, y).metadata =~= v.queued(id, y).metadata);
}

/// One round of a line on which slot `b` is served: send, settle the reply,
/// and queue `b` again with `p`.
pub open spec fn serve_and_requeue(v: InterfaceView, b: int, p: RequestPayload) -> InterfaceView {
    v.after_send().settled().queued(b, p)
}

/// The state after `k` such rounds.
pub open spec fn rounds(v: InterfaceView, b: int, p: RequestPayload, k: nat) -> InterfaceView
    decreases k,
{
    if k == 0 {
        v
    } else {
        serve_and_requeue(rounds(v, b, p, (k - 1) as nat), b, p)
    }
}

/// Slot `b` is served in each of the first `k` rounds and slot `a` in the next.
pub open spec fn served_after(v: InterfaceView, a: int, b: int, p: RequestPayload, k: nat) -> bool {
    &&& rounds(v, b, p, k).is_next(a)
    &&& forall|i: nat| i < k ==> (#[trigger] rounds(v, b, p, i)).is_next(b)
}

/// Nothing is in flight, exactly slots `a` and `b` wait, and `b` was just queued.
pub open spec fn only_two_wait(v: InterfaceView, a: int, b: int) -> bool {
    &&& v.wf()
    &&& v.queued_id is None
    &&& a != b
    &&& v.enabled(a)
    &&& v.enabled(b)
    &&& v.metadata[b].ignored_times == 0
    &&& forall|j: int| #[trigger] v.enabled(j) ==> j == a || j == b
}

/// Rounds that `a` may have to wait for: until its priority plus waiting count
/// passes the priority of `b`.
pub open spec fn wait_bound(v: InterfaceView, a: int, b: int) -> int {
    let pa = v.registry[a].priority as int;
    let ia = v.metadata[a].ignored_times as int;
    let pb = v.registry[b].priority as int;
    if pa + ia > pb {
        0
    } else {
        pb - pa - ia + 1
    }
}

proof fn lemma_two_way_next(s: InterfaceView, a: int, b: int)
    requires
        only_two_wait(s, a, b),
    ensures
        s.send_outcome() == Ok::<int, SendError>(a) || s.send_outcome() == Ok::<int, SendError>(b),
        s.send_outcome() == Ok::<int, SendError>(a) <==> s.is_next(a),
        s.send_outcome() == Ok::<int, SendError>(b) <==> s.is_next(b),
{
    assert(s.enabled(a));
    lemma_next_exists(s);
    let w = s.next_slot();
    assert(s.enabled(w));
    if s.is_next(a) {
        lemma_next_unique(s, a, w);
    }
    if s.is_next(b) {
        lemma_next_unique(s, b, w);
    }
}

proof fn lemma_round_step(s: InterfaceView, a: int, b: int, p: RequestPayload)
    requires
        only_two_wait(s, a, b),
        s.is_next(b),
        s.metadata[a].ignored_times < u32::MAX,
    ensures
        only_two_wait(serve_and_requeue(s, b, p), a, b),
        serve_and_requeue(s, b, p).metadata[a].ignored_times == s.metadata[a].ignored_times + 1,
        serve_and_requeue(s, b, p).registry == s.registry,
{
    lemma_two_way_next(s, a, b);
    let t = serve_and_requeue(s, b, p);
    let u = s.sent(b);
    assert(u.metadata[b].enabled == false);
    assert(u.metadata[a].enabled);
    assert forall|j: int| #[trigger] t.enabled(j) implies j == a || j == b by {
        if j != b {
            assert(u.metadata[j] == t.metadata[j]);
            if j != a {
                assert(!s.enabled(j));
            }
        }
    }
    assert forall|i: int|
        0 <= i < t.slot_count() && #[trigger] t.metadata[i].enabled implies t.payloads[i] is Some by {
        if i != b {
            assert(u.metadata[i] == t.metadata[i]);
            assert(s.metadata[i].enabled);
        }
    }
}

proof fn lemma_aging_from(v: InterfaceView, a: int, b: int, p: RequestPayload, m: nat)
    requires
        only_two_wait(rounds(v, b, p, m), a, b),
        forall|k: nat| k < m ==> (#[trigger] rounds(v, b, p, k)).is_next(b),
        rounds(v, b, p, m).metadata[a].ignored_times == v.metadata[a].ignored_times + m,
        rounds(v, b, p, m).registry == v.registry,
        0 <= a < v.slot_count(),
        0 <= b < v.slot_count(),
        m <= wait_bound(v, a, b),
        (v.registry[b].priority as int - v.registry[a].priority as int) < u32::MAX,
    ensures
        exists|k: nat| k <= wait_bound(v, a, b) && #[trigger] served_after(v, a, b, p, k),
    decreases wait_bound(v, a, b) - m,
{
    let s = rounds(v, b, p, m);
    lemma_two_way_next(s, a, b);
    if s.is_next(a) {
        assert(served_after(v, a, b, p, m));
    } else {
        assert(s.is_next(b));
        if m == wait_bound(v, a, b) {
            assert(s.beats(a, b));
            assert(s.enabled(a));
            assert(false);
        }
        lemma_round_step(s, a, b, p);
        assert(rounds(v, b, p, m + 1) == serve_and_requeue(s, b, p));
        assert forall|k: nat| k < m + 1 implies (#[trigger] rounds(v, b, p, k)).is_next(b) by {
            if k < m {
            } else {
                assert(k == m);
            }
        }
        lemma_aging_from(v, a, b, p, m + 1);
    }
}

/// Starvation freedom: where only slots `a` and `b` wait and `b` is queued
/// again each time it is served, `a` is served within `wait_bound` rounds,
/// and `b` is served in each round before that. Only a priority gap of the
/// whole `u32` range is left out, where the waiting count would stop at its
/// top one round too early.
pub proof fn lemma_aging_fairness(v: InterfaceView, a: int, b: int, p: RequestPayload)
    requires
        only_two_wait(v, a, b),
        (v.registry[b].priority as int - v.registry[a].priority as int) < u32::MAX,
    ensures
        exists|k: nat| k <= wait_bound(v, a, b) && #[trigger] served_after(v, a, b, p, k),
{
    assert(rounds(v, b, p, 0) == v);
    lemma_aging_from(v, a, b, p, 0);
}

} // verus!
