//! Compacting a run's events: each run of `STATE_DELTA` events becomes one
//! `STATE_SNAPSHOT` holding the state after all its deltas, applied in order
//! to the last snapshot before them (or to `null`); a snapshot right before
//! the run is merged into it.

use crate::event::{BaseEvent, Event, StateSnapshotEvent};
use crate::finalize::plain_base;
use crate::json::{
    apply_patch_text, array_text, is_patch_operation, json_array, json_texts, read_patch_operation,
    patch_outcome, JsonValue,
};
use vstd::prelude::*;

verus! {

/// Where an event of a compacted stream comes from.
pub enum Slot {
    /// The input event at this index, unchanged.
    Keep(int),
    /// A new state snapshot with this JSON text.
    Snapshot(Seq<char>),
}

/// Whether a slot holds a state snapshot.
pub open spec fn is_snapshot_slot(input: Seq<Event>, slot: Slot) -> bool {
    match slot {
        Slot::Snapshot(_) => true,
        Slot::Keep(i) => input[i] is StateSnapshot,
    }
}

/// The state the slots end in: the text of their last snapshot, or `null`.
pub open spec fn slot_state(input: Seq<Event>, plan: Seq<Slot>) -> Seq<char>
    decreases plan.len(),
{
    if plan.len() == 0 {
        "null"@
    } else {
        match plan.last() {
            Slot::Snapshot(t) => t,
            Slot::Keep(i) => match input[i] {
                Event::StateSnapshot(s) => s.snapshot.text(),
                _ => slot_state(input, plan.drop_last()),
            },
        }
    }
}

/// The operations of a delta that are JSON Patch operations, in order.
pub open spec fn valid_operations(delta: Seq<JsonValue>) -> Seq<Seq<char>>
    decreases delta.len(),
{
    if delta.len() == 0 {
        Seq::empty()
    } else {
        let p = valid_operations(delta.drop_last());
        if is_patch_operation(delta.last().text()) {
            p.push(delta.last().text())
        } else {
            p
        }
    }
}

/// The state after a delta: patched with its valid operations, or as it was
/// when the patch fails.
pub open spec fn state_after(state: Seq<char>, delta: Seq<JsonValue>) -> Seq<char> {
    match patch_outcome(state, array_text(valid_operations(delta))) {
        Ok(t) => t,
        Err(_) => state,
    }
}

/// The compacted stream of the first `n` input events: a delta replaces the
/// snapshot just before it (or is added) by the snapshot of the state after
/// it; every other event is kept.
pub open spec fn compact_plan(input: Seq<Event>, n: nat) -> Seq<Slot>
    decreases n,
{
    if n == 0 {
        Seq::empty()
    } else {
        let prev = compact_plan(input, (n - 1) as nat);
        match input[n - 1] {
            Event::StateDelta(d) => {
                let snap = Slot::Snapshot(state_after(slot_state(input, prev), d.delta@));
                if prev.len() > 0 && is_snapshot_slot(input, prev.last()) {
                    prev.drop_last().push(snap)
                } else {
                    prev.push(snap)
                }
            },
            _ => prev.push(Slot::Keep(n - 1)),
        }
    }
}

/// Whether the events are the ones the slots describe.
pub open spec fn realizes(out: Seq<Event>, input: Seq<Event>, plan: Seq<Slot>) -> bool {
    &&& out.len() == plan.len()
    &&& forall|k: int|
        0 <= k < plan.len() ==> match #[trigger] plan[k] {
            Slot::Keep(i) => out[k] == input[i],
            Slot::Snapshot(t) => out[k] matches Event::StateSnapshot(s) && plain_base(s.base) && s.snapshot.text()
                == t,
        }
}

/// Every slot of a plan keeps an input event that is no delta, or is a new
/// snapshot; kept indices lie before `n`.
proof fn lemma_plan_slots(input: Seq<Event>, n: nat)
    requires
        n <= input.len(),
    ensures
        forall|k: int|
            0 <= k < compact_plan(input, n).len() ==> match #[trigger] compact_plan(input, n)[k] {
                Slot::Keep(i) => 0 <= i < n && !(input[i] is StateDelta),
                Slot::Snapshot(_) => true,
            },
    decreases n,
{
    if n > 0 {
        lemma_plan_slots(input, (n - 1) as nat);
        let prev = compact_plan(input, (n - 1) as nat);
        let plan = compact_plan(input, n);
        assert forall|k: int| 0 <= k < plan.len() implies match #[trigger] plan[k] {
            Slot::Keep(i) => 0 <= i < n && !(input[i] is StateDelta),
            Slot::Snapshot(_) => true,
        } by {
            if k < prev.len() && k < plan.len() - 1 {
                assert(plan[k] == prev[k]);
            }
        }
    }
}

/// Without deltas the plan keeps every event in place.
proof fn lemma_plan_without_deltas(input: Seq<Event>, n: nat)
    requires
        n <= input.len(),
        forall|i: int| 0 <= i < input.len() ==> !(#[trigger] input[i] is StateDelta),
    ensures
        compact_plan(input, n).len() == n,
        forall|k: int| 0 <= k < n ==> #[trigger] compact_plan(input, n)[k] == Slot::Keep(k),
    decreases n,
{
    if n > 0 {
        lemma_plan_without_deltas(input, (n - 1) as nat);
        assert(!(input[n - 1] is StateDelta));
    }
}

/// The state after the deltas among `events`, applied in order to `state`.
pub open spec fn state_after_deltas(state: Seq<char>, events: Seq<Event>) -> Seq<char>
    decreases events.len(),
{
    if events.len() == 0 {
        state
    } else {
        let before = state_after_deltas(state, events.drop_last());
        match events.last() {
            Event::StateDelta(d) => state_after(before, d.delta@),
            _ => before,
        }
    }
}

/// The plan of a snapshot followed by deltas, up to the `n`-th event, is one
/// new snapshot of the state after those deltas.
proof fn lemma_snapshot_run_plan(input: Seq<Event>, n: nat)
    requires
        2 <= n <= input.len(),
        input[0] is StateSnapshot,
        forall|i: int| 1 <= i < input.len() ==> #[trigger] input[i] is StateDelta,
    ensures
        compact_plan(input, n) == seq![
            Slot::Snapshot(state_after_deltas(input[0]->StateSnapshot_0.snapshot.text(), input.subrange(1, n as int))),
        ],
    decreases n,
{
    let text0 = input[0]->StateSnapshot_0.snapshot.text();
    assert(input.subrange(1, n as int).drop_last() =~= input.subrange(1, n - 1));
    assert(input.subrange(1, n as int).last() == input[n - 1]);
    assert(input[n - 1] is StateDelta);
    let d = input[n - 1]->StateDelta_0;
    assert(input[n - 1] == Event::<JsonValue>::StateDelta(d));
    if n == 2 {
        assert(compact_plan(input, 0) == Seq::<Slot>::empty());
        assert(!(input[0] is StateDelta));
        let prev = compact_plan(input, 1);
        assert(prev =~= seq![Slot::Keep(0)]);
        assert(prev.drop_last() =~= Seq::<Slot>::empty());
        assert(slot_state(input, prev) == text0);
        assert(input.subrange(1, 1) =~= Seq::<Event>::empty());
        assert(state_after_deltas(text0, input.subrange(1, 1)) == text0);
        assert(state_after_deltas(text0, input.subrange(1, 2)) == state_after(text0, d.delta@));
        assert(compact_plan(input, 2) =~= seq![Slot::Snapshot(state_after(text0, d.delta@))]);
    } else {
        lemma_snapshot_run_plan(input, (n - 1) as nat);
        let prev = compact_plan(input, (n - 1) as nat);
        let t = state_after_deltas(text0, input.subrange(1, n - 1));
        assert(prev.drop_last() =~= Seq::<Slot>::empty());
        assert(slot_state(input, prev) == t);
        assert(compact_plan(input, n) =~= seq![Slot::Snapshot(state_after(t, d.delta@))]);
    }
}

/// A `STATE_SNAPSHOT` followed only by `STATE_DELTA` events compacts to one
/// `STATE_SNAPSHOT`, with no timestamp or raw event, of the state after the
/// deltas applied in order to the first snapshot's state.
pub proof fn lemma_snapshot_and_deltas_compact_to_one(input: Seq<Event>, out: Seq<Event>)
    requires
        input.len() >= 2,
        input[0] is StateSnapshot,
        forall|i: int| 1 <= i < input.len() ==> #[trigger] input[i] is StateDelta,
        realizes(out, input, compact_plan(input, input.len())),
    ensures
        out.len() == 1,
        out[0] matches Event::StateSnapshot(s) && plain_base(s.base) && s.snapshot.text() == state_after_deltas(
            input[0]->StateSnapshot_0.snapshot.text(),
            input.subrange(1, input.len() as int),
        ),
{
    lemma_snapshot_run_plan(input, input.len());
    let plan = compact_plan(input, input.len());
    assert(plan.len() == 1);
    assert(match plan[0] {
        Slot::Keep(i) => out[0] == input[i],
        Slot::Snapshot(t) => out[0] matches Event::StateSnapshot(s) && plain_base(s.base) && s.snapshot.text() == t,
    });
}

/// The text of the last state snapshot of a stream, or `null` when it has
/// none.
pub open spec fn last_snapshot_text(s: Seq<Event>) -> Seq<char>
    decreases s.len(),
{
    if s.len() == 0 {
        "null"@
    } else {
        match s.last() {
            Event::StateSnapshot(x) => x.snapshot.text(),
            _ => last_snapshot_text(s.drop_last()),
        }
    }
}

/// The events of a realized plan without its last slot realize the plan
/// without its last slot.
proof fn lemma_realized_drop_last(out: Seq<Event>, input: Seq<Event>, plan: Seq<Slot>)
    requires
        realizes(out, input, plan),
        plan.len() > 0,
    ensures
        realizes(out.drop_last(), input, plan.drop_last()),
{
    assert forall|j: int| 0 <= j < plan.drop_last().len() implies match #[trigger] plan.drop_last()[j] {
        Slot::Keep(i) => out.drop_last()[j] == input[i],
        Slot::Snapshot(t) => out.drop_last()[j] matches Event::StateSnapshot(s) && plain_base(s.base)
            && s.snapshot.text() == t,
    } by {
        assert(plan.drop_last()[j] == plan[j]);
        assert(out.drop_last()[j] == out[j]);
    }
}

/// The state a plan ends in is the state of the last snapshot among the
/// events that realize it.
proof fn lemma_realized_state(out: Seq<Event>, input: Seq<Event>, plan: Seq<Slot>)
    requires
        realizes(out, input, plan),
    ensures
        slot_state(input, plan) == last_snapshot_text(out),
    decreases plan.len(),
{
    if plan.len() > 0 {
        let k = plan.len() - 1;
        lemma_realized_drop_last(out, input, plan);
        lemma_realized_state(out.drop_last(), input, plan.drop_last());
        assert(out.last() == out[k]);
        assert(match plan[k] {
            Slot::Keep(i) => out[k] == input[i],
            Slot::Snapshot(t) => out[k] matches Event::StateSnapshot(s) && s.snapshot.text() == t,
        });
    }
}

/// The state and the last slot of a plan that keeps only events of a prefix
/// read the same from the prefix as from the whole input.
proof fn lemma_slot_state_prefix(input: Seq<Event>, q: Seq<Event>, plan: Seq<Slot>)
    requires
        q.len() <= input.len(),
        q == input.take(q.len() as int),
        forall|k: int| 0 <= k < plan.len() ==> match #[trigger] plan[k] {
            Slot::Keep(i) => 0 <= i < q.len(),
            Slot::Snapshot(_) => true,
        },
    ensures
        slot_state(input, plan) == slot_state(q, plan),
        plan.len() > 0 ==> is_snapshot_slot(input, plan.last()) == is_snapshot_slot(q, plan.last()),
    decreases plan.len(),
{
    if plan.len() > 0 {
        let k = plan.len() - 1;
        assert(plan.last() == plan[k]);
        assert forall|j: int| 0 <= j < plan.drop_last().len() implies match #[trigger] plan.drop_last()[j] {
            Slot::Keep(i) => 0 <= i < q.len(),
            Slot::Snapshot(_) => true,
        } by {
            assert(plan.drop_last()[j] == plan[j]);
        }
        lemma_slot_state_prefix(input, q, plan.drop_last());
        if let Slot::Keep(i) = plan[k] {
            assert(q[i] == input[i]);
        }
    }
}

/// The plan of the first `n` events depends on those events only.
proof fn lemma_plan_prefix(input: Seq<Event>, q: Seq<Event>, n: nat)
    requires
        n <= q.len() <= input.len(),
        q == input.take(q.len() as int),
    ensures
        compact_plan(input, n) == compact_plan(q, n),
    decreases n,
{
    if n > 0 {
        lemma_plan_prefix(input, q, (n - 1) as nat);
        let prev = compact_plan(q, (n - 1) as nat);
        lemma_plan_slots(q, (n - 1) as nat);
        lemma_slot_state_prefix(input, q, prev);
        assert(q[n - 1] == input[n - 1]);
    }
}

/// A plan whose last input event is no delta ends by keeping that event.
proof fn lemma_plan_ends_keeping(input: Seq<Event>, j: nat)
    requires
        0 < j <= input.len(),
        !(input[j - 1] is StateDelta),
    ensures
        compact_plan(input, j).len() > 0,
        compact_plan(input, j).last() == Slot::Keep(j - 1),
{
}

/// A snapshot at index `j` followed by deltas up to the `n`-th event: the
/// plan is the plan before the snapshot and one new snapshot of the state
/// after those deltas, applied in order to the snapshot's state.
proof fn lemma_merge_run_plan(input: Seq<Event>, j: nat, n: nat)
    requires
        j + 2 <= n <= input.len(),
        input[j as int] is StateSnapshot,
        forall|i: int| j < i < n ==> #[trigger] input[i] is StateDelta,
    ensures
        compact_plan(input, n) == compact_plan(input, j).push(
            Slot::Snapshot(
                state_after_deltas(input[j as int]->StateSnapshot_0.snapshot.text(), input.subrange(j as int + 1, n as int)),
            ),
        ),
    decreases n,
{
    let text0 = input[j as int]->StateSnapshot_0.snapshot.text();
    let base = compact_plan(input, j);
    assert(input.subrange(j as int + 1, n as int).drop_last() =~= input.subrange(j as int + 1, n - 1));
    assert(input.subrange(j as int + 1, n as int).last() == input[n - 1]);
    assert(input[n - 1] is StateDelta);
    let d = input[n - 1]->StateDelta_0;
    assert(input[n - 1] == Event::<JsonValue>::StateDelta(d));
    if n == j + 2 {
        assert(!(input[j as int] is StateDelta));
        let prev = compact_plan(input, j + 1);
        assert(prev == base.push(Slot::Keep(j as int)));
        assert(prev.drop_last() =~= base);
        assert(slot_state(input, prev) == text0);
        assert(input.subrange(j as int + 1, j as int + 1) =~= Seq::<Event>::empty());
        assert(state_after_deltas(text0, input.subrange(j as int + 1, j as int + 1)) == text0);
        assert(state_after_deltas(text0, input.subrange(j as int + 1, n as int)) == state_after(text0, d.delta@));
        assert(compact_plan(input, n) =~= base.push(Slot::Snapshot(state_after(text0, d.delta@))));
    } else {
        lemma_merge_run_plan(input, j, (n - 1) as nat);
        let prev = compact_plan(input, (n - 1) as nat);
        let t = state_after_deltas(text0, input.subrange(j as int + 1, n - 1));
        assert(prev.drop_last() =~= base);
        assert(slot_state(input, prev) == t);
        assert(compact_plan(input, n) =~= base.push(Slot::Snapshot(state_after(t, d.delta@))));
    }
}

/// Deltas from index `j` up to the `n`-th event, after no snapshot: the
/// plan is the plan before them and one new snapshot of the state after
/// the deltas, applied in order to the state the plan before them ends in.
proof fn lemma_fresh_run_plan(input: Seq<Event>, j: nat, n: nat)
    requires
        j + 1 <= n <= input.len(),
        j == 0 || !(input[j - 1] is StateSnapshot || input[j - 1] is StateDelta),
        forall|i: int| j <= i < n ==> #[trigger] input[i] is StateDelta,
    ensures
        compact_plan(input, n) == compact_plan(input, j).push(
            Slot::Snapshot(state_after_deltas(slot_state(input, compact_plan(input, j)), input.subrange(j as int, n as int))),
        ),
    decreases n,
{
    let base = compact_plan(input, j);
    let t0 = slot_state(input, base);
    assert(input.subrange(j as int, n as int).drop_last() =~= input.subrange(j as int, n - 1));
    assert(input.subrange(j as int, n as int).last() == input[n - 1]);
    assert(input[n - 1] is StateDelta);
    let d = input[n - 1]->StateDelta_0;
    assert(input[n - 1] == Event::<JsonValue>::StateDelta(d));
    if n == j + 1 {
        if j > 0 {
            lemma_plan_ends_keeping(input, j);
        }
        assert(!(base.len() > 0 && is_snapshot_slot(input, base.last())));
        assert(input.subrange(j as int, j as int) =~= Seq::<Event>::empty());
        assert(state_after_deltas(t0, input.subrange(j as int, j as int)) == t0);
        assert(state_after_deltas(t0, input.subrange(j as int, n as int)) == state_after(t0, d.delta@));
    } else {
        lemma_fresh_run_plan(input, j, (n - 1) as nat);
        let prev = compact_plan(input, (n - 1) as nat);
        let t = state_after_deltas(t0, input.subrange(j as int, n - 1));
        assert(prev.drop_last() =~= base);
        assert(slot_state(input, prev) == t);
        assert(compact_plan(input, n) =~= base.push(Slot::Snapshot(state_after(t, d.delta@))));
    }
}

/// Wherever it stands, a `STATE_SNAPSHOT` followed by a run of
/// `STATE_DELTA` events ending the stream is merged with them: the stream
/// compacts to the compaction of what comes before the snapshot, followed
/// by one `STATE_SNAPSHOT` (no timestamp, no raw event) of the snapshot's
/// state with the deltas applied in order.
pub proof fn lemma_snapshot_merges_with_following_deltas(
    p: Seq<Event>,
    snap: Event,
    deltas: Seq<Event>,
    out: Seq<Event>,
)
    requires
        snap is StateSnapshot,
        deltas.len() > 0,
        forall|i: int| 0 <= i < deltas.len() ==> #[trigger] deltas[i] is StateDelta,
        realizes(out, p + seq![snap] + deltas, compact_plan(p + seq![snap] + deltas, (p.len() + 1 + deltas.len()) as nat)),
    ensures
        out.len() > 0,
        realizes(out.drop_last(), p, compact_plan(p, p.len())),
        out.last() matches Event::StateSnapshot(s) && plain_base(s.base) && s.snapshot.text() == state_after_deltas(
            snap->StateSnapshot_0.snapshot.text(),
            deltas,
        ),
{
    let input = p + seq![snap] + deltas;
    let j = p.len();
    let n = (p.len() + 1 + deltas.len()) as nat;
    assert(input[j as int] == snap);
    assert forall|i: int| j < i < n implies #[trigger] input[i] is StateDelta by {
        assert(input[i] == deltas[i - j - 1]);
    }
    lemma_merge_run_plan(input, j, n);
    assert(input.subrange(j as int + 1, n as int) =~= deltas);
    assert(input.take(j as int) =~= p);
    lemma_plan_prefix(input, p, j);
    let plan = compact_plan(input, n);
    lemma_realized_drop_last(out, input, plan);
    let pp = compact_plan(p, j);
    assert(plan.drop_last() =~= pp);
    lemma_plan_slots(p, j);
    assert forall|k: int| 0 <= k < pp.len() implies match #[trigger] pp[k] {
        Slot::Keep(i) => out.drop_last()[k] == p[i],
        Slot::Snapshot(t) => out.drop_last()[k] matches Event::StateSnapshot(s) && plain_base(s.base)
            && s.snapshot.text() == t,
    } by {
        assert(plan.drop_last()[k] == pp[k]);
        if let Slot::Keep(i) = pp[k] {
            assert(input[i] == p[i]);
        }
    }
    let k = plan.len() - 1;
    assert(out.last() == out[k]);
    assert(plan[k] == Slot::Snapshot(state_after_deltas(snap->StateSnapshot_0.snapshot.text(), deltas)));
}

/// A run of `STATE_DELTA` events ending the stream, after an event that is
/// neither a snapshot nor a delta (or at the start): the stream compacts to
/// the compaction of what comes before the run, followed by one
/// `STATE_SNAPSHOT` (no timestamp, no raw event) of the state of the last
/// snapshot in that compaction (or `null`) with the deltas applied in order.
pub proof fn lemma_deltas_after_other_event_become_snapshot(p: Seq<Event>, deltas: Seq<Event>, out: Seq<Event>)
    requires
        p.len() == 0 || !(p.last() is StateSnapshot || p.last() is StateDelta),
        deltas.len() > 0,
        forall|i: int| 0 <= i < deltas.len() ==> #[trigger] deltas[i] is StateDelta,
        realizes(out, p + deltas, compact_plan(p + deltas, (p.len() + deltas.len()) as nat)),
    ensures
        out.len() > 0,
        realizes(out.drop_last(), p, compact_plan(p, p.len())),
        out.last() matches Event::StateSnapshot(s) && plain_base(s.base) && s.snapshot.text() == state_after_deltas(
            last_snapshot_text(out.drop_last()),
            deltas,
        ),
{
    let input = p + deltas;
    let j = p.len();
    let n = (p.len() + deltas.len()) as nat;
    assert forall|i: int| j <= i < n implies #[trigger] input[i] is StateDelta by {
        assert(input[i] == deltas[i - j]);
    }
    if j > 0 {
        assert(input[j - 1] == p.last());
    }
    lemma_fresh_run_plan(input, j, n);
    assert(input.subrange(j as int, n as int) =~= deltas);
    assert(input.take(j as int) =~= p);
    lemma_plan_prefix(input, p, j);
    let plan = compact_plan(input, n);
    lemma_realized_drop_last(out, input, plan);
    let pp = compact_plan(p, j);
    assert(plan.drop_last() =~= pp);
    lemma_plan_slots(p, j);
    assert forall|k: int| 0 <= k < pp.len() implies match #[trigger] pp[k] {
        Slot::Keep(i) => out.drop_last()[k] == p[i],
        Slot::Snapshot(t) => out.drop_last()[k] matches Event::StateSnapshot(s) && plain_base(s.base)
            && s.snapshot.text() == t,
    } by {
        assert(plan.drop_last()[k] == pp[k]);
        if let Slot::Keep(i) = pp[k] {
            assert(input[i] == p[i]);
        }
    }
    lemma_realized_state(out.drop_last(), input, pp);
    let k = plan.len() - 1;
    assert(out.last() == out[k]);
    assert(compact_plan(input, j) == pp);
    assert(plan[k] == Slot::Snapshot(state_after_deltas(slot_state(input, pp), deltas)));
    assert(match plan[k] {
        Slot::Keep(i) => out[k] == input[i],
        Slot::Snapshot(t) => out[k] matches Event::StateSnapshot(s) && plain_base(s.base) && s.snapshot.text() == t,
    });
}

/// Whether an event carries state: a snapshot or a delta.
pub open spec fn is_state_event(e: Event) -> bool {
    e is StateSnapshot || e is StateDelta
}

/// The events of a stream that carry no state, in order.
pub open spec fn other_events(s: Seq<Event>) -> Seq<Event>
    decreases s.len(),
{
    if s.len() == 0 {
        Seq::empty()
    } else {
        let p = other_events(s.drop_last());
        if is_state_event(s.last()) {
            p
        } else {
            p.push(s.last())
        }
    }
}

/// The events without state that a plan keeps, in order.
pub open spec fn plan_others(input: Seq<Event>, plan: Seq<Slot>) -> Seq<Event>
    decreases plan.len(),
{
    if plan.len() == 0 {
        Seq::empty()
    } else {
        let p = plan_others(input, plan.drop_last());
        match plan.last() {
            Slot::Keep(i) => if is_state_event(input[i]) {
                p
            } else {
                p.push(input[i])
            },
            Slot::Snapshot(_) => p,
        }
    }
}

/// The events without state of a realized plan are the ones it keeps.
proof fn lemma_realized_others(out: Seq<Event>, input: Seq<Event>, plan: Seq<Slot>)
    requires
        realizes(out, input, plan),
    ensures
        other_events(out) == plan_others(input, plan),
    decreases plan.len(),
{
    if plan.len() > 0 {
        let k = plan.len() - 1;
        assert(realizes(out.drop_last(), input, plan.drop_last())) by {
            assert forall|j: int| 0 <= j < plan.drop_last().len() implies match #[trigger] plan.drop_last()[j] {
                Slot::Keep(i) => out.drop_last()[j] == input[i],
                Slot::Snapshot(t) => out.drop_last()[j] matches Event::StateSnapshot(s) && plain_base(s.base)
                    && s.snapshot.text() == t,
            } by {
                assert(plan.drop_last()[j] == plan[j]);
                assert(out.drop_last()[j] == out[j]);
            }
        }
        lemma_realized_others(out.drop_last(), input, plan.drop_last());
        assert(match plan[k] {
            Slot::Keep(i) => out[k] == input[i],
            Slot::Snapshot(t) => out[k] is StateSnapshot,
        });
    }
}

/// Compaction keeps every event without state, in order.
proof fn lemma_plan_keeps_others(input: Seq<Event>, n: nat)
    requires
        n <= input.len(),
    ensures
        plan_others(input, compact_plan(input, n)) == other_events(input.take(n as int)),
    decreases n,
{
    if n == 0 {
        assert(input.take(0) =~= Seq::<Event>::empty());
    } else {
        lemma_plan_keeps_others(input, (n - 1) as nat);
        let prev = compact_plan(input, (n - 1) as nat);
        assert(input.take(n as int).drop_last() =~= input.take(n - 1));
        assert(input.take(n as int).last() == input[n - 1]);
        match input[n - 1] {
            Event::StateDelta(d) => {
                let snap = Slot::Snapshot(state_after(slot_state(input, prev), d.delta@));
                if prev.len() > 0 && is_snapshot_slot(input, prev.last()) {
                    assert(prev.drop_last().push(snap).drop_last() =~= prev.drop_last());
                } else {
                    assert(prev.push(snap).drop_last() =~= prev);
                }
            },
            _ => {
                assert(prev.push(Slot::Keep(n - 1)).drop_last() =~= prev);
            },
        }
    }
}

/// The operations of a delta that are JSON Patch operations.
fn valid_delta_operations(delta: &Vec<JsonValue>) -> (r: Vec<JsonValue>)
    ensures
        json_texts(r@) == valid_operations(delta@),
{
    let mut out: Vec<JsonValue> = Vec::new();
    let mut i: usize = 0;
    assert(delta@.take(0) =~= Seq::<JsonValue>::empty());
    assert(json_texts(out@) =~= Seq::<Seq<char>>::empty());
    while i < delta.len()
        invariant
            i <= delta@.len(),
            json_texts(out@) == valid_operations(delta@.take(i as int)),
        decreases delta.len() - i,
    {
        let ghost before = out@;
        assert(delta@.take(i + 1).drop_last() =~= delta@.take(i as int));
        if read_patch_operation(&delta[i]).is_ok() {
            out.push(delta[i].clone());
            assert(json_texts(out@) =~= json_texts(before).push(delta@[i as int].text()));
        }
        i = i + 1;
    }
    assert(delta@.take(delta@.len() as int) =~= delta@);
    out
}

/// The state after a delta.
fn apply_delta(state: &JsonValue, delta: &Vec<JsonValue>) -> (r: JsonValue)
    ensures
        r.text() == state_after(state.text(), delta@),
{
    let ops = valid_delta_operations(delta);
    let patch = json_array(&ops);
    match apply_patch_text(state, &patch) {
        Ok(v) => v,
        Err(_) => state.clone(),
    }
}

/// Compacts a run's events: each run of `STATE_DELTA` events, together with
/// a `STATE_SNAPSHOT` right before it, becomes one `STATE_SNAPSHOT` of the
/// state after the deltas, applied in order to the last snapshot before the
/// run (or to `null`); the JSON Patch operations of a delta that cannot be
/// read are skipped, and a delta whose patch fails leaves the state as it
/// was.  Afterwards no delta is left, and a stream without deltas is left
/// as it was.
pub fn compact_events(events: &mut Vec<Event>)
    ensures
        realizes(final(events)@, old(events)@, compact_plan(old(events)@, old(events)@.len())),
        forall|k: int| 0 <= k < final(events)@.len() ==> !(#[trigger] final(events)@[k] is StateDelta),
        (forall|i: int| 0 <= i < old(events)@.len() ==> !(#[trigger] old(events)@[i] is StateDelta))
            ==> final(events)@ == old(events)@,
        other_events(final(events)@) == other_events(old(events)@),
{
    let ghost input = events@;
    let count = events.len();
    let ghost n = input.len();
    let mut backwards: Vec<Event> = Vec::new();
    while events.len() > 0
        invariant
            n == input.len(),
            n == count,
            events@.len() + backwards@.len() == n,
            events@ == input.take(events@.len() as int),
            forall|j: int| 0 <= j < backwards@.len() ==> #[trigger] backwards@[j] == input[n - 1 - j],
        decreases events@.len(),
    {
        let e = events.pop().unwrap();
        backwards.push(e);
        assert(events@ =~= input.take(events@.len() as int));
    }
    let mut out: Vec<Event> = Vec::new();
    let mut state = JsonValue::null();
    let mut i: usize = 0;
    proof {
        reveal_strlit("null");
    }
    while backwards.len() > 0
        invariant
            n == input.len(),
            n == count,
            i + backwards@.len() == n,
            forall|j: int| 0 <= j < backwards@.len() ==> #[trigger] backwards@[j] == input[n - 1 - j],
            realizes(out@, input, compact_plan(input, i as nat)),
            state.text() == slot_state(input, compact_plan(input, i as nat)),
            i <= n,
        decreases backwards@.len(),
    {
        let ghost prev = compact_plan(input, i as nat);
        let ghost before = out@;
        let e = backwards.pop().unwrap();
        assert(e == input[i as int]);
        assert(compact_plan(input, (i + 1) as nat) == {
            match input[i as int] {
                Event::StateDelta(d) => {
                    let snap = Slot::Snapshot(state_after(slot_state(input, prev), d.delta@));
                    if prev.len() > 0 && is_snapshot_slot(input, prev.last()) {
                        prev.drop_last().push(snap)
                    } else {
                        prev.push(snap)
                    }
                },
                _ => prev.push(Slot::Keep(i as int)),
            }
        });
        match e {
            Event::StateDelta(d) => {
                let next = apply_delta(&state, &d.delta);
                let ends_in_snapshot = out.len() > 0 && match &out[out.len() - 1] {
                    Event::StateSnapshot(_) => true,
                    _ => false,
                };
                proof {
                    if prev.len() > 0 {
                        let last = (prev.len() - 1) as int;
                        assert(match prev[last] {
                            Slot::Keep(j) => out@[last] == input[j],
                            Slot::Snapshot(t) => out@[last] is StateSnapshot,
                        });
                    }
                    assert(ends_in_snapshot == (prev.len() > 0 && is_snapshot_slot(input, prev.last())));
                }
                if ends_in_snapshot {
                    out.pop();
                }
                let ghost kept = out@;
                out.push(Event::StateSnapshot(StateSnapshotEvent {
                    base: BaseEvent { timestamp: None, raw_event: None },
                    snapshot: next.clone(),
                }));
                state = next;
                proof {
                    let plan = compact_plan(input, (i + 1) as nat);
                    assert forall|k: int| 0 <= k < plan.len() implies match #[trigger] plan[k] {
                        Slot::Keep(j) => out@[k] == input[j],
                        Slot::Snapshot(t) => out@[k] matches Event::StateSnapshot(s) && plain_base(s.base)
                            && s.snapshot.text() == t,
                    } by {
                        if k < plan.len() - 1 {
                            assert(plan[k] == prev[k]);
                            assert(out@[k] == before[k]);
                        }
                    }
                }
            },
            _ => {
                let ghost kept_event = e;
                match &e {
                    Event::StateSnapshot(s) => {
                        state = s.snapshot.clone();
                    },
                    _ => {},
                }
                out.push(e);
                proof {
                    let plan = compact_plan(input, (i + 1) as nat);
                    assert(plan.last() == Slot::Keep(i as int));
                    assert forall|k: int| 0 <= k < plan.len() implies match #[trigger] plan[k] {
                        Slot::Keep(j) => out@[k] == input[j],
                        Slot::Snapshot(t) => out@[k] matches Event::StateSnapshot(s) && plain_base(s.base)
                            && s.snapshot.text() == t,
                    } by {
                        if k < plan.len() - 1 {
                            assert(plan[k] == prev[k]);
                            assert(out@[k] == before[k]);
                        }
                    }
                    assert(plan.drop_last() =~= prev);
                }
            },
        }
        i = i + 1;
    }
    proof {
        lemma_realized_others(out@, input, compact_plan(input, n as nat));
        lemma_plan_keeps_others(input, n as nat);
        assert(input.take(n as int) =~= input);
        lemma_plan_slots(input, n as nat);
        let plan = compact_plan(input, n as nat);
        assert forall|k: int| 0 <= k < out@.len() implies !(#[trigger] out@[k] is StateDelta) by {
            match plan[k] {
                Slot::Keep(j) => {
                    assert(out@[k] == input[j]);
                },
                Slot::Snapshot(_) => {},
            }
        }
        if forall|j: int| 0 <= j < input.len() ==> !(#[trigger] input[j] is StateDelta) {
            lemma_plan_without_deltas(input, n as nat);
            assert forall|k: int| 0 <= k < n implies out@[k] == input[k] by {
                assert(plan[k] == Slot::Keep(k));
            }
            assert(out@ =~= input);
        }
    }
    *events = out;
}

} // verus!
