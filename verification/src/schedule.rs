//! The order in which the operators of a voice are evaluated on a sample
//! tick.
//!
//! An operator needs the fresh output of every other operator that modulates
//! it. Feedback edges read the output of the previous tick and therefore
//! never hold an operator back. The order is found by sweeping over the
//! slots a bounded number of times; whatever is left afterwards lies on or
//! behind a cycle and is evaluated without modulation input.

use vstd::prelude::*;
use crate::algorithm::{edges_in_range, FMAlgorithm, NUM_OPERATORS};
use crate::schedule_laws::lemma_each_slot_once;

verus! {

/// One operator evaluation within a sample tick.
#[derive(Clone, Copy, Debug, PartialEq, Eq, Structural)]
pub struct EvalStep {
    /// The operator slot to evaluate.
    pub slot: usize,
    /// The slot could not be ordered after its sources; it is evaluated with
    /// a phase input of zero.
    pub forced: bool,
}

/// Progress of the relaxation: which slots have an output for this tick, and
/// in which order they received it.
pub struct Sweep {
    pub resolved: Seq<bool>,
    pub order: Seq<usize>,
}

/// The edge holds `slot` back: it comes from another slot that has no output
/// yet.
pub open spec fn blocks(edge: (usize, usize), resolved: Seq<bool>, slot: usize) -> bool {
    edge.1 == slot && edge.0 != slot && !resolved[edge.0 as int]
}

/// No edge holds `slot` back.
pub open spec fn ready(edges: Seq<(usize, usize)>, resolved: Seq<bool>, slot: usize) -> bool {
    forall|k: int| 0 <= k < edges.len() ==> !blocks(#[trigger] edges[k], resolved, slot)
}

/// Nothing is resolved before the first sweep.
pub open spec fn start() -> Sweep {
    Sweep { resolved: Seq::new(NUM_OPERATORS as nat, |i: int| false), order: Seq::empty() }
}

/// Looks at one slot: a pending slot that is ready is resolved now.
pub open spec fn visit(edges: Seq<(usize, usize)>, s: Sweep, slot: usize) -> Sweep {
    if !s.resolved[slot as int] && ready(edges, s.resolved, slot) {
        Sweep { resolved: s.resolved.update(slot as int, true), order: s.order.push(slot) }
    } else {
        s
    }
}

/// Looks at the slots below `upto`, in increasing order.
pub open spec fn visit_below(edges: Seq<(usize, usize)>, s: Sweep, upto: nat) -> Sweep
    decreases upto,
{
    if upto == 0 {
        s
    } else {
        visit(edges, visit_below(edges, s, (upto - 1) as nat), (upto - 1) as usize)
    }
}

/// One sweep over all slots.
pub open spec fn pass(edges: Seq<(usize, usize)>, s: Sweep) -> Sweep {
    visit_below(edges, s, NUM_OPERATORS as nat)
}

/// The state after `n` sweeps.
pub open spec fn passes(edges: Seq<(usize, usize)>, n: nat) -> Sweep
    decreases n,
{
    if n == 0 {
        start()
    } else {
        pass(edges, passes(edges, (n - 1) as nat))
    }
}

/// The slots below `upto` that are still pending, in increasing order.
pub open spec fn pending_below(resolved: Seq<bool>, upto: nat) -> Seq<usize>
    decreases upto,
{
    if upto == 0 {
        Seq::empty()
    } else if resolved[upto - 1] {
        pending_below(resolved, (upto - 1) as nat)
    } else {
        pending_below(resolved, (upto - 1) as nat).push((upto - 1) as usize)
    }
}

/// A step that was ordered after its sources.
pub open spec fn resolved_step(slot: usize) -> EvalStep {
    EvalStep { slot, forced: false }
}

/// A step that breaks a cycle.
pub open spec fn forced_step(slot: usize) -> EvalStep {
    EvalStep { slot, forced: true }
}

/// The evaluation order of a tick: the slots resolved by as many sweeps as
/// there are operators, in the order of their resolution, followed by the
/// remaining slots in increasing order, each of them forced.
pub open spec fn evaluation_plan(edges: Seq<(usize, usize)>) -> Seq<EvalStep> {
    let s = passes(edges, NUM_OPERATORS as nat);
    s.order.map_values(|slot: usize| resolved_step(slot)) + pending_below(
        s.resolved,
        NUM_OPERATORS as nat,
    ).map_values(|slot: usize| forced_step(slot))
}

/// The two groups of modulation sources. Each group has a depth of its own.
#[derive(Clone, Copy, Debug, PartialEq, Eq, Structural)]
pub enum ModGroup {
    A,
    B,
}

/// The group of a source slot: the first two slots form group A, the last
/// two group B.
pub open spec fn group_of(slot: usize) -> ModGroup {
    if slot < 2 {
        ModGroup::A
    } else {
        ModGroup::B
    }
}

/// One term of the phase input of an operator.
#[derive(Clone, Copy, Debug, PartialEq, Eq, Structural)]
pub enum PhaseInput {
    /// The operator's own output of the previous tick, scaled by its
    /// feedback amount and by nothing else.
    Feedback,
    /// The output that `source` produced on this tick, scaled by the
    /// modulation index of `group`.
    Modulation { source: usize, group: ModGroup },
}

/// The term that an edge contributes to the phase input of its destination.
pub open spec fn input_of(edge: (usize, usize)) -> PhaseInput {
    if edge.0 == edge.1 {
        PhaseInput::Feedback
    } else {
        PhaseInput::Modulation { source: edge.0, group: group_of(edge.0) }
    }
}

/// The edges that lead into `slot`, in their order.
pub open spec fn edges_into(edges: Seq<(usize, usize)>, slot: usize) -> Seq<(usize, usize)> {
    edges.filter(|edge: (usize, usize)| edge.1 == slot)
}

/// The terms of the phase input of `slot`: one for every edge that leads
/// into it, in the order of the edges. An edge that is listed twice counts
/// twice.
pub open spec fn phase_inputs(edges: Seq<(usize, usize)>, slot: usize) -> Seq<PhaseInput> {
    edges_into(edges, slot).map_values(|edge: (usize, usize)| input_of(edge))
}

/// One operator evaluation together with the terms of its phase input.
#[derive(Clone, Debug)]
pub struct OperatorStep {
    /// The operator slot to evaluate.
    pub slot: usize,
    /// The slot is evaluated to break a cycle.
    pub forced: bool,
    /// The terms to add up for the phase input; none for a forced slot.
    pub inputs: Vec<PhaseInput>,
}

/// The terms that a step of the plan adds up: those of its slot, or none
/// where the step is forced.
pub open spec fn step_inputs(edges: Seq<(usize, usize)>, step: EvalStep) -> Seq<PhaseInput> {
    if step.forced {
        Seq::empty()
    } else {
        phase_inputs(edges, step.slot)
    }
}

impl ModGroup {
    /// The group that a source slot belongs to.
    pub fn of_slot(slot: usize) -> (group: ModGroup)
        ensures
            group == group_of(slot),
    {
        if slot < 2 {
            ModGroup::A
        } else {
            ModGroup::B
        }
    }
}

impl FMAlgorithm {
    /// The terms of the phase input of `slot`, in the order of the edges
    /// that lead into it.
    pub fn phase_inputs(&self, slot: usize) -> (inputs: Vec<PhaseInput>)
        ensures
            inputs@ == phase_inputs(self@.edges, slot),
    {
        let edges = self.modulations();
        let mut inputs: Vec<PhaseInput> = Vec::new();
        let mut k: usize = 0;
        proof {
            reveal(Seq::filter);
            assert(edges@.take(0) =~= Seq::empty());
            assert(inputs@ =~= phase_inputs(edges@.take(0), slot));
        }
        while k < edges.len()
            invariant
                k <= edges@.len(),
                inputs@ == phase_inputs(edges@.take(k as int), slot),
            decreases edges@.len() - k,
        {
            let (source, dest) = edges[k];
            proof {
                reveal(Seq::filter);
                assert(edges@.take(k + 1).drop_last() =~= edges@.take(k as int));
                assert(edges@.take(k + 1).last() == (source, dest));
            }
            if dest == slot {
                let input = if source == dest {
                    PhaseInput::Feedback
                } else {
                    PhaseInput::Modulation { source, group: ModGroup::of_slot(source) }
                };
                inputs.push(input);
                assert(inputs@ =~= phase_inputs(edges@.take(k + 1), slot));
            }
            k += 1;
        }
        assert(edges@.take(k as int) =~= edges@);
        inputs
    }

    /// Whether every other operator that modulates `slot` has produced its
    /// output for this tick.
    fn sources_resolved(&self, resolved: &Vec<bool>, slot: usize) -> (ok: bool)
        requires
            self.wf(),
            resolved@.len() == NUM_OPERATORS,
            slot < NUM_OPERATORS,
        ensures
            ok == ready(self@.edges, resolved@, slot),
    {
        let edges = self.modulations();
        let mut k: usize = 0;
        while k < edges.len()
            invariant
                k <= edges@.len(),
                edges@ == self@.edges,
                edges_in_range(edges@),
                resolved@.len() == NUM_OPERATORS,
                forall|j: int| 0 <= j < k ==> !blocks(#[trigger] edges@[j], resolved@, slot),
            decreases edges@.len() - k,
        {
            let (source, dest) = edges[k];
            if dest == slot && source != slot && !resolved[source] {
                return false;
            }
            k += 1;
        }
        true
    }

    /// The order in which to evaluate the four operators on a tick.
    ///
    /// Each operator appears exactly once. An operator that is not forced
    /// comes after every other operator that modulates it.
    pub fn evaluation_order(&self) -> (plan: Vec<EvalStep>)
        requires
            self.wf(),
        ensures
            plan@ == evaluation_plan(self@.edges),
            plan@.len() == NUM_OPERATORS,
            forall|p: int| 0 <= p < NUM_OPERATORS ==> (#[trigger] plan@[p]).slot < NUM_OPERATORS,
    {
        let ghost edges = self@.edges;
        let mut resolved: Vec<bool> = vec![false, false, false, false];
        let mut plan: Vec<EvalStep> = Vec::new();
        assert(resolved@ =~= start().resolved);
        assert(plan@.len() == 0);
        let mut round: usize = 0;
        while round < NUM_OPERATORS
            invariant
                self.wf(),
                edges == self@.edges,
                round <= NUM_OPERATORS,
                resolved@.len() == NUM_OPERATORS,
                resolved@ == passes(edges, round as nat).resolved,
                plan@ =~= passes(edges, round as nat).order.map_values(
                    |slot: usize| resolved_step(slot),
                ),
            decreases NUM_OPERATORS - round,
        {
            let ghost before = passes(edges, round as nat);
            let mut slot: usize = 0;
            while slot < NUM_OPERATORS
                invariant
                    self.wf(),
                    edges == self@.edges,
                    slot <= NUM_OPERATORS,
                    resolved@.len() == NUM_OPERATORS,
                    resolved@ == visit_below(edges, before, slot as nat).resolved,
                    plan@ =~= visit_below(edges, before, slot as nat).order.map_values(
                        |slot: usize| resolved_step(slot),
                    ),
                decreases NUM_OPERATORS - slot,
            {
                if !resolved[slot] && self.sources_resolved(&resolved, slot) {
                    resolved.set(slot, true);
                    plan.push(EvalStep { slot, forced: false });
                }
                slot += 1;
            }
            round += 1;
        }
        let ghost relaxed = passes(edges, NUM_OPERATORS as nat);
        let ghost head = relaxed.order.map_values(|slot: usize| resolved_step(slot));
        let mut slot: usize = 0;
        while slot < NUM_OPERATORS
            invariant
                slot <= NUM_OPERATORS,
                resolved@.len() == NUM_OPERATORS,
                resolved@ == relaxed.resolved,
                plan@ =~= head + pending_below(resolved@, slot as nat).map_values(
                    |slot: usize| forced_step(slot),
                ),
            decreases NUM_OPERATORS - slot,
        {
            if !resolved[slot] {
                plan.push(EvalStep { slot, forced: true });
            }
            slot += 1;
        }
        proof {
            lemma_each_slot_once(edges);
        }
        plan
    }

    /// Everything an evaluator needs for one tick: the operators in the
    /// order of their evaluation, each with the terms of its phase input.
    /// A forced operator receives no terms, not even its own feedback.
    pub fn tick_plan(&self) -> (plan: Vec<OperatorStep>)
        requires
            self.wf(),
        ensures
            plan@.len() == NUM_OPERATORS,
            forall|p: int|
                0 <= p < NUM_OPERATORS ==> {
                    let step = evaluation_plan(self@.edges)[p];
                    &&& (#[trigger] plan@[p]).slot == step.slot
                    &&& plan@[p].slot < NUM_OPERATORS
                    &&& plan@[p].forced == step.forced
                    &&& plan@[p].inputs@ == step_inputs(self@.edges, step)
                },
    {
        let order = self.evaluation_order();
        let mut plan: Vec<OperatorStep> = Vec::new();
        let mut p: usize = 0;
        while p < order.len()
            invariant
                p <= order@.len(),
                order@.len() == NUM_OPERATORS,
                order@ == evaluation_plan(self@.edges),
                plan@.len() == p,
                forall|q: int|
                    0 <= q < p ==> {
                        let step = order@[q];
                        &&& (#[trigger] plan@[q]).slot == step.slot
                        &&& plan@[q].forced == step.forced
                        &&& plan@[q].inputs@ == step_inputs(self@.edges, step)
                    },
            decreases order@.len() - p,
        {
            let step = order[p];
            let inputs = if step.forced {
                Vec::new()
            } else {
                self.phase_inputs(step.slot)
            };
            plan.push(OperatorStep { slot: step.slot, forced: step.forced, inputs });
            p += 1;
        }
        plan
    }
}

} // verus!
