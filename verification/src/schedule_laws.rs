//! What holds of every evaluation order, whatever the routing.

use vstd::prelude::*;
use crate::algorithm::{edges_in_range, preset_edges, NUM_ALGORITHMS, NUM_OPERATORS};
use crate::schedule::{
    blocks, edges_into, evaluation_plan, forced_step, group_of, pass, passes, pending_below,
    phase_inputs, ready, resolved_step, start, visit, visit_below, EvalStep, Sweep,
};

verus! {

/// One for a resolved slot, zero for a pending one.
pub open spec fn unit(b: bool) -> nat {
    if b {
        1
    } else {
        0
    }
}

/// How many of the slots below `upto` are resolved.
pub open spec fn resolved_below(resolved: Seq<bool>, upto: nat) -> nat
    decreases upto,
{
    if upto == 0 {
        0
    } else {
        resolved_below(resolved, (upto - 1) as nat) + unit(resolved[upto - 1])
    }
}

/// `slot` stands in `order` at a position before `p`.
pub open spec fn placed_before(order: Seq<usize>, slot: usize, p: int) -> bool {
    exists|q: int| 0 <= q < p && q < order.len() && #[trigger] order[q] == slot
}

/// What every state of the relaxation satisfies: the order lists exactly the
/// resolved slots, each once, and each after the other slots that modulate
/// it.
pub open spec fn sweep_inv(edges: Seq<(usize, usize)>, s: Sweep) -> bool {
    &&& s.resolved.len() == NUM_OPERATORS
    &&& s.order.len() == resolved_below(s.resolved, NUM_OPERATORS as nat)
    &&& forall|p: int|
        0 <= p < s.order.len() ==> (#[trigger] s.order[p]) < NUM_OPERATORS
            && s.resolved[s.order[p] as int]
    &&& forall|p: int, q: int|
        0 <= p < q < s.order.len() ==> #[trigger] s.order[p] != #[trigger] s.order[q]
    &&& forall|slot: usize|
        slot < NUM_OPERATORS && #[trigger] s.resolved[slot as int] ==> placed_before(
            s.order,
            slot,
            s.order.len() as int,
        )
    &&& forall|p: int, k: int|
        0 <= p < s.order.len() && 0 <= k < edges.len() && (#[trigger] edges[k]).1
            == #[trigger] s.order[p] && edges[k].0 != edges[k].1 ==> placed_before(
            s.order,
            edges[k].0,
            p,
        )
}

/// Some step of the plan evaluates `slot`.
pub open spec fn visits(plan: Seq<EvalStep>, slot: usize) -> bool {
    exists|p: int| 0 <= p < plan.len() && (#[trigger] plan[p]).slot == slot
}

/// No pending slot can be resolved any more.
pub open spec fn stuck(edges: Seq<(usize, usize)>, s: Sweep) -> bool {
    forall|slot: usize|
        slot < NUM_OPERATORS && !(#[trigger] s.resolved[slot as int]) ==> !ready(
            edges,
            s.resolved,
            slot,
        )
}

proof fn lemma_count_after_update(resolved: Seq<bool>, slot: usize, upto: nat)
    requires
        resolved.len() == NUM_OPERATORS,
        slot < NUM_OPERATORS,
        upto <= NUM_OPERATORS,
        !resolved[slot as int],
    ensures
        resolved_below(resolved.update(slot as int, true), upto) == resolved_below(resolved, upto)
            + unit(slot < upto),
    decreases upto,
{
    if upto > 0 {
        lemma_count_after_update(resolved, slot, (upto - 1) as nat);
    }
}

proof fn lemma_count_bounded(resolved: Seq<bool>, upto: nat)
    requires
        resolved.len() == NUM_OPERATORS,
        upto <= NUM_OPERATORS,
    ensures
        resolved_below(resolved, upto) <= upto,
        resolved_below(resolved, upto) == upto ==> forall|slot: int|
            0 <= slot < upto ==> resolved[slot],
    decreases upto,
{
    if upto > 0 {
        lemma_count_bounded(resolved, (upto - 1) as nat);
    }
}

proof fn lemma_start_inv(edges: Seq<(usize, usize)>)
    ensures
        sweep_inv(edges, start()),
{
    reveal_with_fuel(resolved_below, 5);
}

proof fn lemma_visit_inv(edges: Seq<(usize, usize)>, s: Sweep, slot: usize)
    requires
        edges_in_range(edges),
        sweep_inv(edges, s),
        slot < NUM_OPERATORS,
    ensures
        sweep_inv(edges, visit(edges, s, slot)),
{
    let t = visit(edges, s, slot);
    if t != s {
        let n = s.order.len() as int;
        lemma_count_after_update(s.resolved, slot, NUM_OPERATORS as nat);
        assert(t.order[n] == slot);
        assert forall|other: usize|
            other < NUM_OPERATORS && #[trigger] t.resolved[other as int] implies placed_before(
            t.order,
            other,
            t.order.len() as int,
        ) by {
            if other == slot {
                assert(t.order[n] == other);
            } else {
                assert(s.resolved[other as int]);
                let q = choose|q: int| 0 <= q < n && q < s.order.len() && s.order[q] == other;
                assert(t.order[q] == other);
            }
        }
        assert forall|p: int, k: int|
            0 <= p < t.order.len() && 0 <= k < edges.len() && (#[trigger] edges[k]).1
                == #[trigger] t.order[p] && edges[k].0 != edges[k].1 implies placed_before(
            t.order,
            edges[k].0,
            p,
        ) by {
            let source = edges[k].0;
            if p < n {
                assert(t.order[p] == s.order[p]);
                let q = choose|q: int| 0 <= q < p && q < s.order.len() && s.order[q] == source;
                assert(t.order[q] == source);
            } else {
                assert(!blocks(edges[k], s.resolved, slot));
                assert(s.resolved[source as int]);
                let q = choose|q: int| 0 <= q < n && q < s.order.len() && s.order[q] == source;
                assert(t.order[q] == source);
            }
        }
        assert forall|p: int, q: int| 0 <= p < q < t.order.len() implies #[trigger] t.order[p]
            != #[trigger] t.order[q] by {
            if q == n {
                assert(s.resolved[s.order[p] as int]);
            }
        }
        assert forall|p: int| 0 <= p < t.order.len() implies (#[trigger] t.order[p])
            < NUM_OPERATORS && t.resolved[t.order[p] as int] by {
            if p < n {
                assert(s.resolved[s.order[p] as int]);
            }
        }
    }
}

/// A sweep over the first slots keeps the invariant, never forgets a
/// resolution, and changes nothing exactly if none of those slots could be
/// resolved.
proof fn lemma_visit_below(edges: Seq<(usize, usize)>, s: Sweep, upto: nat)
    requires
        edges_in_range(edges),
        sweep_inv(edges, s),
        upto <= NUM_OPERATORS,
    ensures
        sweep_inv(edges, visit_below(edges, s, upto)),
        visit_below(edges, s, upto).order.len() >= s.order.len(),
        visit_below(edges, s, upto).order.len() == s.order.len() ==> {
            &&& visit_below(edges, s, upto) == s
            &&& forall|slot: usize|
                slot < upto && !(#[trigger] s.resolved[slot as int]) ==> !ready(
                    edges,
                    s.resolved,
                    slot,
                )
        },
    decreases upto,
{
    if upto > 0 {
        let before = visit_below(edges, s, (upto - 1) as nat);
        lemma_visit_below(edges, s, (upto - 1) as nat);
        lemma_visit_inv(edges, before, (upto - 1) as usize);
    }
}

/// Where nothing can be resolved, a sweep changes nothing.
proof fn lemma_stuck_is_fixed(edges: Seq<(usize, usize)>, s: Sweep, upto: nat)
    requires
        stuck(edges, s),
        s.resolved.len() == NUM_OPERATORS,
        upto <= NUM_OPERATORS,
    ensures
        visit_below(edges, s, upto) == s,
    decreases upto,
{
    if upto > 0 {
        lemma_stuck_is_fixed(edges, s, (upto - 1) as nat);
        let slot = (upto - 1) as usize;
        if !s.resolved[slot as int] {
            assert(!ready(edges, s.resolved, slot));
        }
    }
}

/// After `n` sweeps either `n` slots are resolved or nothing more can be.
proof fn lemma_passes(edges: Seq<(usize, usize)>, n: nat)
    requires
        edges_in_range(edges),
    ensures
        sweep_inv(edges, passes(edges, n)),
        passes(edges, n).order.len() >= n || stuck(edges, passes(edges, n)),
    decreases n,
{
    if n == 0 {
        lemma_start_inv(edges);
    } else {
        let before = passes(edges, (n - 1) as nat);
        lemma_passes(edges, (n - 1) as nat);
        lemma_visit_below(edges, before, NUM_OPERATORS as nat);
        if stuck(edges, before) {
            lemma_stuck_is_fixed(edges, before, NUM_OPERATORS as nat);
        } else if pass(edges, before).order.len() == before.order.len() {
            assert(stuck(edges, before));
        }
    }
}

/// As many sweeps as there are operators always reach a state in which no
/// pending slot can still be resolved.
pub proof fn lemma_relaxation_settles(edges: Seq<(usize, usize)>)
    requires
        edges_in_range(edges),
    ensures
        sweep_inv(edges, passes(edges, NUM_OPERATORS as nat)),
        stuck(edges, passes(edges, NUM_OPERATORS as nat)),
{
    let s = passes(edges, NUM_OPERATORS as nat);
    lemma_passes(edges, NUM_OPERATORS as nat);
    lemma_count_bounded(s.resolved, NUM_OPERATORS as nat);
}

/// The pending slots are listed in increasing order, each once, and no
/// other slot is listed.
proof fn lemma_pending_below(resolved: Seq<bool>, upto: nat)
    requires
        resolved.len() == NUM_OPERATORS,
        upto <= NUM_OPERATORS,
    ensures
        pending_below(resolved, upto).len() + resolved_below(resolved, upto) == upto,
        forall|i: int|
            0 <= i < pending_below(resolved, upto).len() ==> (#[trigger] pending_below(
                resolved,
                upto,
            )[i]) < upto && !resolved[pending_below(resolved, upto)[i] as int],
        forall|i: int, j: int|
            0 <= i < j < pending_below(resolved, upto).len() ==> #[trigger] pending_below(
                resolved,
                upto,
            )[i] < #[trigger] pending_below(resolved, upto)[j],
        forall|slot: usize|
            slot < upto && !(#[trigger] resolved[slot as int]) ==> placed_before(
                pending_below(resolved, upto),
                slot,
                pending_below(resolved, upto).len() as int,
            ),
    decreases upto,
{
    if upto > 0 {
        let shorter = pending_below(resolved, (upto - 1) as nat);
        let longer = pending_below(resolved, upto);
        lemma_pending_below(resolved, (upto - 1) as nat);
        assert forall|slot: usize| slot < upto && !(#[trigger] resolved[slot as int]) implies placed_before(
            longer,
            slot,
            longer.len() as int,
        ) by {
            if slot == upto - 1 {
                assert(longer[longer.len() - 1] == slot);
            } else {
                let q = choose|q: int| 0 <= q < shorter.len() && shorter[q] == slot;
                assert(longer[q] == slot);
            }
        }
    }
}

/// The plan is the resolution order followed by the pending slots.
proof fn lemma_plan_shape(edges: Seq<(usize, usize)>)
    requires
        edges_in_range(edges),
    ensures
        ({
            let s = passes(edges, NUM_OPERATORS as nat);
            let rest = pending_below(s.resolved, NUM_OPERATORS as nat);
            let plan = evaluation_plan(edges);
            &&& sweep_inv(edges, s)
            &&& stuck(edges, s)
            &&& plan.len() == NUM_OPERATORS
            &&& s.order.len() + rest.len() == NUM_OPERATORS
            &&& forall|p: int|
                0 <= p < s.order.len() ==> #[trigger] plan[p] == resolved_step(s.order[p])
            &&& forall|p: int|
                s.order.len() <= p < NUM_OPERATORS ==> #[trigger] plan[p] == forced_step(
                    rest[p - s.order.len()],
                )
        }),
{
    let s = passes(edges, NUM_OPERATORS as nat);
    lemma_relaxation_settles(edges);
    lemma_pending_below(s.resolved, NUM_OPERATORS as nat);
}

/// Every operator is evaluated exactly once on a tick, whatever the routing
/// and however many edges lead into it.
pub proof fn lemma_each_slot_once(edges: Seq<(usize, usize)>)
    requires
        edges_in_range(edges),
    ensures
        evaluation_plan(edges).len() == NUM_OPERATORS,
        forall|p: int|
            0 <= p < NUM_OPERATORS ==> (#[trigger] evaluation_plan(edges)[p]).slot
                < NUM_OPERATORS,
        forall|p: int, q: int|
            0 <= p < q < NUM_OPERATORS ==> (#[trigger] evaluation_plan(edges)[p]).slot
                != (#[trigger] evaluation_plan(edges)[q]).slot,
        forall|slot: usize| slot < NUM_OPERATORS ==> #[trigger] visits(evaluation_plan(edges), slot),
{
    let s = passes(edges, NUM_OPERATORS as nat);
    let rest = pending_below(s.resolved, NUM_OPERATORS as nat);
    let plan = evaluation_plan(edges);
    let n = s.order.len() as int;
    lemma_plan_shape(edges);
    lemma_pending_below(s.resolved, NUM_OPERATORS as nat);
    assert forall|p: int| 0 <= p < NUM_OPERATORS implies (#[trigger] plan[p]).slot
        < NUM_OPERATORS by {
        if p < n {
            assert(s.order[p] < NUM_OPERATORS);
        } else {
            assert(rest[p - n] < NUM_OPERATORS);
        }
    }
    assert forall|p: int, q: int| 0 <= p < q < NUM_OPERATORS implies (#[trigger] plan[p]).slot
        != (#[trigger] plan[q]).slot by {
        if q < n {
            assert(s.order[p] != s.order[q]);
        } else if p < n {
            assert(s.resolved[s.order[p] as int]);
            assert(!s.resolved[rest[q - n] as int]);
        } else {
            assert(rest[p - n] < rest[q - n]);
        }
    }
    assert forall|slot: usize| slot < NUM_OPERATORS implies #[trigger] visits(plan, slot) by {
        if s.resolved[slot as int] {
            let q = choose|q: int| 0 <= q < n && s.order[q] == slot;
            assert(plan[q].slot == slot);
        } else {
            let q = choose|q: int| 0 <= q < rest.len() && rest[q] == slot;
            assert(plan[q + n].slot == slot);
        }
    }
}

/// An operator that is not forced is evaluated after every other operator
/// that modulates it, and none of those is forced.
pub proof fn lemma_sources_come_first(edges: Seq<(usize, usize)>, p: int, k: int)
    requires
        edges_in_range(edges),
        0 <= p < NUM_OPERATORS,
        !evaluation_plan(edges)[p].forced,
        0 <= k < edges.len(),
        edges[k].1 == evaluation_plan(edges)[p].slot,
        edges[k].0 != edges[k].1,
    ensures
        exists|q: int| 0 <= q < p && #[trigger] evaluation_plan(edges)[q] == resolved_step(edges[k].0),
{
    let s = passes(edges, NUM_OPERATORS as nat);
    let plan = evaluation_plan(edges);
    lemma_plan_shape(edges);
    assert(p < s.order.len());
    assert(plan[p] == resolved_step(s.order[p]));
    assert(placed_before(s.order, edges[k].0, p));
    let q = choose|q: int| 0 <= q < p && q < s.order.len() && s.order[q] == edges[k].0;
    assert(plan[q] == resolved_step(edges[k].0));
}

/// Every modulation term of an operator that is not forced reads an output
/// of this tick: its source is another operator, it has been evaluated at
/// an earlier step, it is not forced, and the term is scaled by the depth of
/// the group of the source.
pub proof fn lemma_inputs_are_fresh(edges: Seq<(usize, usize)>, p: int, i: int)
    requires
        edges_in_range(edges),
        0 <= p < NUM_OPERATORS,
        !evaluation_plan(edges)[p].forced,
        0 <= i < phase_inputs(edges, evaluation_plan(edges)[p].slot).len(),
        phase_inputs(edges, evaluation_plan(edges)[p].slot)[i] is Modulation,
    ensures
        ({
            let slot = evaluation_plan(edges)[p].slot;
            let input = phase_inputs(edges, slot)[i];
            &&& input->source != slot
            &&& input->group == group_of(input->source)
            &&& exists|q: int|
                0 <= q < p && #[trigger] evaluation_plan(edges)[q] == resolved_step(input->source)
        }),
{
    let slot = evaluation_plan(edges)[p].slot;
    let edge = edges_into(edges, slot)[i];
    lemma_edges_into(edges, slot, i);
    let k = choose|k: int| 0 <= k < edges.len() && edges[k] == edge;
    lemma_sources_come_first(edges, p, k);
}

/// Every edge that leads into `slot` is an edge of the routing and ends at
/// `slot`.
proof fn lemma_edges_into(edges: Seq<(usize, usize)>, slot: usize, i: int)
    requires
        0 <= i < edges_into(edges, slot).len(),
    ensures
        edges_into(edges, slot)[i].1 == slot,
        exists|k: int| 0 <= k < edges.len() && edges[k] == edges_into(edges, slot)[i],
    decreases edges.len(),
{
    reveal(Seq::filter);
    if edges.len() > 0 {
        let rest = edges.drop_last();
        if i < edges_into(rest, slot).len() {
            lemma_edges_into(rest, slot, i);
            let k = choose|k: int| 0 <= k < rest.len() && rest[k] == edges_into(rest, slot)[i];
            assert(edges[k] == edges_into(edges, slot)[i]);
        } else {
            assert(edges[edges.len() - 1] == edges_into(edges, slot)[i]);
        }
    }
}

/// The forced operators are evaluated last, in increasing slot order.
pub proof fn lemma_forced_steps_last(edges: Seq<(usize, usize)>)
    requires
        edges_in_range(edges),
    ensures
        forall|p: int, q: int|
            0 <= p < q < NUM_OPERATORS && (#[trigger] evaluation_plan(edges)[p]).forced ==> (
            #[trigger] evaluation_plan(edges)[q]).forced && evaluation_plan(edges)[p].slot
                < evaluation_plan(edges)[q].slot,
{
    let s = passes(edges, NUM_OPERATORS as nat);
    let rest = pending_below(s.resolved, NUM_OPERATORS as nat);
    let plan = evaluation_plan(edges);
    let n = s.order.len() as int;
    lemma_plan_shape(edges);
    lemma_pending_below(s.resolved, NUM_OPERATORS as nat);
    assert forall|p: int, q: int|
        0 <= p < q < NUM_OPERATORS && (#[trigger] plan[p]).forced implies (#[trigger] plan[q]).forced
        && plan[p].slot < plan[q].slot by {
        assert(p >= n);
        assert(rest[p - n] < rest[q - n]);
    }
}

/// A forced operator is modulated by another operator that is forced too:
/// it lies on a cycle of the routing, or behind one.
pub proof fn lemma_forced_has_forced_source(edges: Seq<(usize, usize)>, p: int)
    requires
        edges_in_range(edges),
        0 <= p < NUM_OPERATORS,
        evaluation_plan(edges)[p].forced,
    ensures
        exists|k: int, q: int|
            0 <= k < edges.len() && 0 <= q < NUM_OPERATORS && (#[trigger] edges[k]).1
                == evaluation_plan(edges)[p].slot && edges[k].0 != edges[k].1
                && #[trigger] evaluation_plan(edges)[q] == forced_step(edges[k].0),
{
    let s = passes(edges, NUM_OPERATORS as nat);
    let rest = pending_below(s.resolved, NUM_OPERATORS as nat);
    let plan = evaluation_plan(edges);
    let n = s.order.len() as int;
    lemma_plan_shape(edges);
    lemma_pending_below(s.resolved, NUM_OPERATORS as nat);
    let slot = plan[p].slot;
    assert(p >= n);
    assert(slot == rest[p - n]);
    assert(!s.resolved[slot as int]);
    assert(!ready(edges, s.resolved, slot));
    let k = choose|k: int| 0 <= k < edges.len() && blocks(#[trigger] edges[k], s.resolved, slot);
    let source = edges[k].0;
    assert(!s.resolved[source as int]);
    let i = choose|i: int| 0 <= i < rest.len() && rest[i] == source;
    assert(plan[i + n] == forced_step(source));
}

/// Where the operators can be ranked so that every edge between two
/// different operators leads to a higher rank, the routing has no cycle but
/// feedback, and no operator is forced.
pub proof fn lemma_layered_routing_resolves(edges: Seq<(usize, usize)>, rank: Seq<nat>)
    requires
        edges_in_range(edges),
        rank.len() == NUM_OPERATORS,
        forall|k: int|
            0 <= k < edges.len() && (#[trigger] edges[k]).0 != edges[k].1 ==> rank[edges[k].0 as int]
                < rank[edges[k].1 as int],
    ensures
        forall|p: int| 0 <= p < NUM_OPERATORS ==> !(#[trigger] evaluation_plan(edges)[p]).forced,
{
    let s = passes(edges, NUM_OPERATORS as nat);
    let rest = pending_below(s.resolved, NUM_OPERATORS as nat);
    let plan = evaluation_plan(edges);
    lemma_plan_shape(edges);
    lemma_pending_below(s.resolved, NUM_OPERATORS as nat);
    assert forall|slot: usize| slot < NUM_OPERATORS implies s.resolved[slot as int] by {
        lemma_low_ranks_resolve(edges, rank, s, rank[slot as int] + 1);
    }
    lemma_count_full(s.resolved, NUM_OPERATORS as nat);
}

proof fn lemma_count_full(resolved: Seq<bool>, upto: nat)
    requires
        resolved.len() == NUM_OPERATORS,
        upto <= NUM_OPERATORS,
        forall|slot: usize| slot < NUM_OPERATORS ==> resolved[slot as int],
    ensures
        resolved_below(resolved, upto) == upto,
    decreases upto,
{
    if upto > 0 {
        lemma_count_full(resolved, (upto - 1) as nat);
        assert(resolved[((upto - 1) as usize) as int]);
    }
}

/// In a settled state of a layered routing every slot of rank below `bound`
/// is resolved.
proof fn lemma_low_ranks_resolve(
    edges: Seq<(usize, usize)>,
    rank: Seq<nat>,
    s: Sweep,
    bound: nat,
)
    requires
        edges_in_range(edges),
        rank.len() == NUM_OPERATORS,
        forall|k: int|
            0 <= k < edges.len() && (#[trigger] edges[k]).0 != edges[k].1 ==> rank[edges[k].0 as int]
                < rank[edges[k].1 as int],
        s.resolved.len() == NUM_OPERATORS,
        stuck(edges, s),
    ensures
        forall|slot: usize|
            slot < NUM_OPERATORS && rank[slot as int] < bound ==> #[trigger] s.resolved[slot as int],
    decreases bound,
{
    if bound > 0 {
        lemma_low_ranks_resolve(edges, rank, s, (bound - 1) as nat);
        assert forall|slot: usize|
            slot < NUM_OPERATORS && rank[slot as int] < bound implies #[trigger] s.resolved[slot as int] by {
            if !s.resolved[slot as int] {
                assert(!ready(edges, s.resolved, slot));
                let k = choose|k: int|
                    0 <= k < edges.len() && blocks(#[trigger] edges[k], s.resolved, slot);
                assert(rank[edges[k].0 as int] < bound - 1);
            }
        }
    }
}

/// The two edge lists hold the same edges between different slots; how
/// often, in which order, and with which feedback edges besides does not
/// matter.
pub open spec fn same_dependencies(a: Seq<(usize, usize)>, b: Seq<(usize, usize)>) -> bool {
    forall|edge: (usize, usize)|
        edge.0 != edge.1 ==> (#[trigger] a.contains(edge) <==> #[trigger] b.contains(edge))
}

proof fn lemma_ready_follows(
    a: Seq<(usize, usize)>,
    b: Seq<(usize, usize)>,
    resolved: Seq<bool>,
    slot: usize,
)
    requires
        same_dependencies(a, b),
        ready(a, resolved, slot),
    ensures
        ready(b, resolved, slot),
{
    assert forall|k: int| 0 <= k < b.len() implies !blocks(#[trigger] b[k], resolved, slot) by {
        if blocks(b[k], resolved, slot) {
            assert(b.contains(b[k]));
            assert(a.contains(b[k]));
            let j = choose|j: int| 0 <= j < a.len() && a[j] == b[k];
            assert(!blocks(a[j], resolved, slot));
        }
    }
}

proof fn lemma_visit_below_agrees(
    a: Seq<(usize, usize)>,
    b: Seq<(usize, usize)>,
    s: Sweep,
    upto: nat,
)
    requires
        same_dependencies(a, b),
    ensures
        visit_below(a, s, upto) == visit_below(b, s, upto),
    decreases upto,
{
    if upto > 0 {
        lemma_visit_below_agrees(a, b, s, (upto - 1) as nat);
        let before = visit_below(a, s, (upto - 1) as nat);
        let slot = (upto - 1) as usize;
        if ready(a, before.resolved, slot) {
            lemma_ready_follows(a, b, before.resolved, slot);
        }
        if ready(b, before.resolved, slot) {
            lemma_ready_follows(b, a, before.resolved, slot);
        }
    }
}

proof fn lemma_passes_agree(a: Seq<(usize, usize)>, b: Seq<(usize, usize)>, n: nat)
    requires
        same_dependencies(a, b),
    ensures
        passes(a, n) == passes(b, n),
    decreases n,
{
    if n > 0 {
        lemma_passes_agree(a, b, (n - 1) as nat);
        lemma_visit_below_agrees(a, b, passes(a, (n - 1) as nat), NUM_OPERATORS as nat);
    }
}

/// The evaluation order depends on nothing but the set of edges between
/// different operators: feedback edges, repeated edges and the order in
/// which the edges are listed leave it unchanged.
pub proof fn lemma_plan_depends_on_dependencies(a: Seq<(usize, usize)>, b: Seq<(usize, usize)>)
    requires
        same_dependencies(a, b),
    ensures
        evaluation_plan(a) == evaluation_plan(b),
{
    lemma_passes_agree(a, b, NUM_OPERATORS as nat);
}

/// Feedback never holds an operator back: a routing with one more feedback
/// edge is evaluated in the same order.
pub proof fn lemma_feedback_never_blocks(edges: Seq<(usize, usize)>, slot: usize)
    ensures
        evaluation_plan(edges.push((slot, slot))) == evaluation_plan(edges),
{
    let more = edges.push((slot, slot));
    assert forall|edge: (usize, usize)| edge.0 != edge.1 implies (#[trigger] more.contains(edge)
        <==> #[trigger] edges.contains(edge)) by {
        if more.contains(edge) {
            let j = choose|j: int| 0 <= j < more.len() && more[j] == edge;
            assert(j < edges.len());
            assert(edges[j] == edge);
        }
        if edges.contains(edge) {
            let j = choose|j: int| 0 <= j < edges.len() && edges[j] == edge;
            assert(more[j] == edge);
        }
    }
    lemma_plan_depends_on_dependencies(more, edges);
}

/// Every chain of edges between different operators that leads into `slot`
/// starts, fewer than `depth` edges back, at an operator that no other
/// operator modulates.
pub open spec fn grounded(edges: Seq<(usize, usize)>, slot: usize, depth: nat) -> bool
    decreases depth,
{
    &&& depth > 0
    &&& forall|k: int|
        0 <= k < edges.len() && (#[trigger] edges[k]).1 == slot && edges[k].0 != slot
            ==> grounded(edges, edges[k].0, (depth - 1) as nat)
}

proof fn lemma_grounded_deeper(edges: Seq<(usize, usize)>, slot: usize, depth: nat, more: nat)
    requires
        grounded(edges, slot, depth),
        depth <= more,
    ensures
        grounded(edges, slot, more),
    decreases depth,
{
    assert forall|k: int|
        0 <= k < edges.len() && (#[trigger] edges[k]).1 == slot && edges[k].0
            != slot implies grounded(edges, edges[k].0, (more - 1) as nat) by {
        lemma_grounded_deeper(edges, edges[k].0, (depth - 1) as nat, (more - 1) as nat);
    }
}

/// In a settled state every grounded slot is resolved.
proof fn lemma_grounded_resolves(edges: Seq<(usize, usize)>, s: Sweep, slot: usize, depth: nat)
    requires
        edges_in_range(edges),
        s.resolved.len() == NUM_OPERATORS,
        stuck(edges, s),
        slot < NUM_OPERATORS,
        grounded(edges, slot, depth),
    ensures
        s.resolved[slot as int],
    decreases depth,
{
    if !s.resolved[slot as int] {
        assert(!ready(edges, s.resolved, slot));
        let k = choose|k: int| 0 <= k < edges.len() && blocks(#[trigger] edges[k], s.resolved, slot);
        lemma_grounded_resolves(edges, s, edges[k].0, (depth - 1) as nat);
    }
}

/// The slot at position `p` of the resolution order is grounded within
/// `p + 1` steps.
proof fn lemma_placed_is_grounded(edges: Seq<(usize, usize)>, s: Sweep, p: int)
    requires
        edges_in_range(edges),
        sweep_inv(edges, s),
        0 <= p < s.order.len(),
    ensures
        grounded(edges, s.order[p], (p + 1) as nat),
    decreases p,
{
    let slot = s.order[p];
    assert forall|k: int|
        0 <= k < edges.len() && (#[trigger] edges[k]).1 == slot && edges[k].0
            != slot implies grounded(edges, edges[k].0, p as nat) by {
        assert(placed_before(s.order, edges[k].0, p));
        let q = choose|q: int| 0 <= q < p && q < s.order.len() && s.order[q] == edges[k].0;
        lemma_placed_is_grounded(edges, s, q);
        lemma_grounded_deeper(edges, edges[k].0, (q + 1) as nat, p as nat);
    }
}

/// An operator is forced exactly if it lies on a cycle of the routing or
/// behind one: if some chain of edges between different operators leads into
/// it that never starts at an operator without modulation from others.
/// Feedback, an edge from an operator to itself, forces nothing.
pub proof fn lemma_forced_iff_not_grounded(edges: Seq<(usize, usize)>, p: int)
    requires
        edges_in_range(edges),
        0 <= p < NUM_OPERATORS,
    ensures
        evaluation_plan(edges)[p].forced <==> !grounded(
            edges,
            evaluation_plan(edges)[p].slot,
            NUM_OPERATORS as nat,
        ),
{
    let s = passes(edges, NUM_OPERATORS as nat);
    let rest = pending_below(s.resolved, NUM_OPERATORS as nat);
    let plan = evaluation_plan(edges);
    let n = s.order.len() as int;
    lemma_plan_shape(edges);
    lemma_pending_below(s.resolved, NUM_OPERATORS as nat);
    if p < n {
        lemma_placed_is_grounded(edges, s, p);
        lemma_grounded_deeper(edges, s.order[p], (p + 1) as nat, NUM_OPERATORS as nat);
    } else {
        let slot = rest[p - n];
        assert(!s.resolved[slot as int]);
        if grounded(edges, slot, NUM_OPERATORS as nat) {
            lemma_grounded_resolves(edges, s, slot, NUM_OPERATORS as nat);
        }
    }
}

/// A ranking of the operators for every preset but the one with cross
/// modulation.
pub open spec fn preset_rank(index: int) -> Seq<nat> {
    if index == 0 {
        seq![1nat, 0nat, 0nat, 1nat]
    } else if index == 1 || index == 6 {
        seq![1nat, 0nat, 0nat, 0nat]
    } else if index == 2 || index == 3 {
        seq![2nat, 1nat, 0nat, 0nat]
    } else if index == 5 {
        seq![2nat, 0nat, 1nat, 0nat]
    } else {
        seq![2nat, 1nat, 1nat, 0nat]
    }
}

/// Among the presets only the one with cross modulation holds a cycle: in
/// every other preset no operator is forced.
pub proof fn lemma_presets_without_cycle(index: int)
    requires
        0 <= index < NUM_ALGORITHMS,
        index != 4,
    ensures
        forall|p: int|
            0 <= p < NUM_OPERATORS ==> !(#[trigger] evaluation_plan(preset_edges(index))[p]).forced,
{
    lemma_layered_routing_resolves(preset_edges(index), preset_rank(index));
}

/// In the preset with cross modulation the two operators that modulate each
/// other are forced, and the other two are not.
pub proof fn lemma_cross_modulation_is_forced(p: int)
    requires
        0 <= p < NUM_OPERATORS,
    ensures
        evaluation_plan(preset_edges(4))[p].forced <==> (evaluation_plan(preset_edges(4))[p].slot
            == 1 || evaluation_plan(preset_edges(4))[p].slot == 2),
{
    let edges = preset_edges(4);
    lemma_forced_iff_not_grounded(edges, p);
    lemma_each_slot_once(edges);
    reveal_with_fuel(grounded, 5);
    assert(edges[0] == (3usize, 0usize));
    assert(edges[1] == (2usize, 1usize));
    assert(edges[2] == (1usize, 2usize));
    assert(grounded(edges, 3, 3));
    assert(grounded(edges, 0, 4));
    assert(!grounded(edges, 1, 4)) by {
        assert(!grounded(edges, 1, 0));
        assert(!grounded(edges, 2, 1));
        assert(!grounded(edges, 1, 2));
        assert(!grounded(edges, 2, 3));
    }
    assert(!grounded(edges, 2, 4)) by {
        assert(!grounded(edges, 2, 0));
        assert(!grounded(edges, 1, 1));
        assert(!grounded(edges, 2, 2));
        assert(!grounded(edges, 1, 3));
    }
}

} // verus!
