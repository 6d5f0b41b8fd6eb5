//! The routing graph of a patch: which operator modulates which, and which
//! operators are heard.

use vstd::prelude::*;

verus! {

/// Number of operator slots in a voice.
pub const NUM_OPERATORS: usize = 4;

/// Number of preset algorithms.
pub const NUM_ALGORITHMS: usize = 8;

/// One side of the stereo bus.
#[derive(Clone, Copy, Debug, PartialEq, Eq, Structural)]
pub enum Channel {
    Left,
    Right,
}

/// The channel given to the carrier at position `position` of a carrier
/// list: carriers alternate between the two sides, starting on the left.
pub open spec fn channel_at(position: int) -> Channel {
    if position % 2 == 0 {
        Channel::Left
    } else {
        Channel::Right
    }
}

/// Every edge joins two existing operator slots.
pub open spec fn edges_in_range(edges: Seq<(usize, usize)>) -> bool {
    forall|k: int|
        0 <= k < edges.len() ==> (#[trigger] edges[k]).0 < NUM_OPERATORS && edges[k].1
            < NUM_OPERATORS
}

/// Every listed slot exists.
pub open spec fn slots_in_range(slots: Seq<usize>) -> bool {
    forall|k: int| 0 <= k < slots.len() ==> #[trigger] slots[k] < NUM_OPERATORS
}

/// The edge joins two existing operator slots.
pub open spec fn edge_in_range(edge: (usize, usize)) -> bool {
    edge.0 < NUM_OPERATORS && edge.1 < NUM_OPERATORS
}

/// The slot exists.
pub open spec fn slot_in_range(slot: usize) -> bool {
    slot < NUM_OPERATORS
}

/// The edges of a list that join existing slots, in their order.
pub open spec fn valid_edges(edges: Seq<(usize, usize)>) -> Seq<(usize, usize)> {
    edges.filter(|edge: (usize, usize)| edge_in_range(edge))
}

/// The existing slots of a list, in their order.
pub open spec fn valid_slots(slots: Seq<usize>) -> Seq<usize> {
    slots.filter(|slot: usize| slot_in_range(slot))
}

/// The output routing that a carrier list gives rise to.
pub open spec fn routing_of(carriers: Seq<usize>) -> Seq<(usize, Channel)> {
    Seq::new(carriers.len(), |k: int| (carriers[k], channel_at(k)))
}

/// Mathematical content of an algorithm.
pub struct AlgorithmModel {
    /// Modulation edges `(source, destination)`, in the order given. An edge
    /// from a slot to itself is feedback.
    pub edges: Seq<(usize, usize)>,
    /// Slots that reach the stereo bus, in the order given.
    pub carriers: Seq<usize>,
    /// For each carrier, in order, the side of the bus it feeds.
    pub routing: Seq<(usize, Channel)>,
}

impl AlgorithmModel {
    /// All slots exist and the routing is the one derived from the carriers.
    pub open spec fn wf(self) -> bool {
        &&& edges_in_range(self.edges)
        &&& slots_in_range(self.carriers)
        &&& self.routing == routing_of(self.carriers)
    }

    /// Some edge, feedback included, starts at `slot`.
    pub open spec fn is_source(self, slot: usize) -> bool {
        exists|k: int| 0 <= k < self.edges.len() && (#[trigger] self.edges[k]).0 == slot
    }

    /// The output of `slot` reaches the stereo bus.
    pub open spec fn is_carrier(self, slot: usize) -> bool {
        self.carriers.contains(slot)
    }

    /// The slot only shapes the phase of operators: it is the source of some
    /// edge and is not heard itself.
    pub open spec fn is_modulator(self, slot: usize) -> bool {
        self.is_source(slot) && !self.is_carrier(slot)
    }
}

/// The routing graph that a user-supplied edge list and carrier list
/// describe: whatever names a slot that does not exist is left out, and the
/// carriers alternate between left and right in the order given.
pub open spec fn custom_model(edges: Seq<(usize, usize)>, carriers: Seq<usize>) -> AlgorithmModel {
    AlgorithmModel {
        edges: valid_edges(edges),
        carriers: valid_slots(carriers),
        routing: routing_of(valid_slots(carriers)),
    }
}

/// The edges of the preset with the given index.
pub open spec fn preset_edges(index: int) -> Seq<(usize, usize)> {
    if index == 0 {
        // Two carriers: slot 2 and slot 1 modulate slot 0, slot 1 also modulates slot 3.
        seq![(2usize, 0usize), (1usize, 0usize), (1usize, 3usize)]
    } else if index == 1 {
        // Parallel: every other slot modulates slot 0.
        seq![(1usize, 0usize), (2usize, 0usize), (3usize, 0usize)]
    } else if index == 2 {
        // Branching: slot 3 modulates slot 1, which modulates slot 0 together with slot 2.
        seq![(3usize, 1usize), (1usize, 0usize), (2usize, 0usize)]
    } else if index == 3 {
        // Combination: slots 3 and 2 modulate slot 1; slots 1 and 2 modulate slot 0.
        seq![(3usize, 1usize), (2usize, 1usize), (1usize, 0usize), (2usize, 0usize)]
    } else if index == 4 {
        // Cross modulation: slot 3 modulates slot 0; slots 1 and 2 modulate each other.
        seq![(3usize, 0usize), (2usize, 1usize), (1usize, 2usize)]
    } else if index == 5 {
        // Hybrid branching: slots 1 and 2 modulate slot 0; slot 3 modulates slot 2.
        seq![(1usize, 0usize), (2usize, 0usize), (3usize, 2usize)]
    } else if index == 6 {
        // Direct: slots 3, 2 and 1 modulate slot 0.
        seq![(3usize, 0usize), (2usize, 0usize), (1usize, 0usize)]
    } else {
        // Split: slot 3 modulates slots 2 and 1, which both modulate slot 0; slots 0 and 1 are heard.
        seq![(3usize, 2usize), (3usize, 1usize), (2usize, 0usize), (1usize, 0usize)]
    }
}

/// The carriers of the preset with the given index.
pub open spec fn preset_carriers(index: int) -> Seq<usize> {
    if index == 0 {
        seq![0usize, 3usize]
    } else if index == 7 {
        seq![0usize, 1usize]
    } else {
        seq![0usize]
    }
}

/// The preset with the given index.
pub open spec fn preset(index: int) -> AlgorithmModel {
    AlgorithmModel {
        edges: preset_edges(index),
        carriers: preset_carriers(index),
        routing: routing_of(preset_carriers(index)),
    }
}

/// Every preset is a valid routing graph.
pub proof fn lemma_preset_valid(index: int)
    ensures
        preset(index).wf(),
{
}

/// Filtering keeps a valid list as it is.
pub proof fn lemma_valid_edges_kept(edges: Seq<(usize, usize)>)
    requires
        edges_in_range(edges),
    ensures
        valid_edges(edges) == edges,
    decreases edges.len(),
{
    reveal(Seq::filter);
    if edges.len() > 0 {
        lemma_valid_edges_kept(edges.drop_last());
        assert(edge_in_range(edges.last()));
        assert(edges.drop_last().push(edges.last()) =~= edges);
    }
}

/// Filtering keeps a valid list as it is.
pub proof fn lemma_valid_slots_kept(slots: Seq<usize>)
    requires
        slots_in_range(slots),
    ensures
        valid_slots(slots) == slots,
    decreases slots.len(),
{
    reveal(Seq::filter);
    if slots.len() > 0 {
        lemma_valid_slots_kept(slots.drop_last());
        assert(slot_in_range(slots.last()));
        assert(slots.drop_last().push(slots.last()) =~= slots);
    }
}

/// An immutable routing graph over the four operator slots.
#[derive(Clone, Debug)]
pub struct FMAlgorithm {
    modulations: Vec<(usize, usize)>,
    carriers: Vec<usize>,
    output_routing: Vec<(usize, Channel)>,
}

impl View for FMAlgorithm {
    type V = AlgorithmModel;

    closed spec fn view(&self) -> AlgorithmModel {
        AlgorithmModel {
            edges: self.modulations@,
            carriers: self.carriers@,
            routing: self.output_routing@,
        }
    }
}

/// Copies the valid edges of a list.
fn keep_valid_edges(edges: &Vec<(usize, usize)>) -> (kept: Vec<(usize, usize)>)
    ensures
        kept@ == valid_edges(edges@),
        edges_in_range(kept@),
{
    let mut kept: Vec<(usize, usize)> = Vec::new();
    let mut k: usize = 0;
    proof {
        reveal(Seq::filter);
        assert(edges@.take(0) =~= Seq::empty());
    }
    while k < edges.len()
        invariant
            k <= edges@.len(),
            kept@ == valid_edges(edges@.take(k as int)),
            edges_in_range(kept@),
        decreases edges@.len() - k,
    {
        let edge: (usize, usize) = edges[k];
        proof {
            reveal(Seq::filter);
            assert(edges@.take(k + 1).drop_last() =~= edges@.take(k as int));
            assert(edges@.take(k + 1).last() == edge);
        }
        if edge.0 < NUM_OPERATORS && edge.1 < NUM_OPERATORS {
            kept.push(edge);
        }
        k += 1;
    }
    assert(edges@.take(k as int) =~= edges@);
    kept
}

/// Copies the valid slots of a list.
fn keep_valid_slots(slots: &Vec<usize>) -> (kept: Vec<usize>)
    ensures
        kept@ == valid_slots(slots@),
        slots_in_range(kept@),
{
    let mut kept: Vec<usize> = Vec::new();
    let mut k: usize = 0;
    proof {
        reveal(Seq::filter);
        assert(slots@.take(0) =~= Seq::empty());
    }
    while k < slots.len()
        invariant
            k <= slots@.len(),
            kept@ == valid_slots(slots@.take(k as int)),
            slots_in_range(kept@),
        decreases slots@.len() - k,
    {
        let slot: usize = slots[k];
        proof {
            reveal(Seq::filter);
            assert(slots@.take(k + 1).drop_last() =~= slots@.take(k as int));
            assert(slots@.take(k + 1).last() == slot);
        }
        if slot < NUM_OPERATORS {
            kept.push(slot);
        }
        k += 1;
    }
    assert(slots@.take(k as int) =~= slots@);
    kept
}

/// Copies a list of plain values.
fn copy_list<T: Copy>(source: &Vec<T>) -> (copy: Vec<T>)
    ensures
        copy@ == source@,
{
    let mut copy: Vec<T> = Vec::new();
    let mut k: usize = 0;
    while k < source.len()
        invariant
            k <= source@.len(),
            copy@ == source@.take(k as int),
        decreases source@.len() - k,
    {
        copy.push(source[k]);
        assert(source@.take(k + 1) =~= source@.take(k as int).push(source@[k as int]));
        k += 1;
    }
    assert(source@.take(k as int) =~= source@);
    copy
}

impl FMAlgorithm {
    /// Validity of the stored graph.
    pub open spec fn wf(&self) -> bool {
        self@.wf()
    }

    /// Builds a routing graph from user-supplied edges `(source,
    /// destination)` and carriers. Entries that name a slot outside the
    /// voice are ignored. The carriers are routed to the left and right bus
    /// in turn, in the order given.
    pub fn custom(edges: Vec<(usize, usize)>, carriers: Vec<usize>) -> (algorithm: FMAlgorithm)
        ensures
            algorithm.wf(),
            algorithm@ == custom_model(edges@, carriers@),
            edges_in_range(edges@) ==> algorithm@.edges == edges@,
            slots_in_range(carriers@) ==> algorithm@.carriers == carriers@,
    {
        let modulations = keep_valid_edges(&edges);
        let kept = keep_valid_slots(&carriers);
        let mut output_routing: Vec<(usize, Channel)> = Vec::new();
        let mut k: usize = 0;
        while k < kept.len()
            invariant
                k <= kept@.len(),
                output_routing@.len() == k,
                forall|j: int|
                    0 <= j < k ==> #[trigger] output_routing@[j] == (kept@[j], channel_at(j)),
            decreases kept@.len() - k,
        {
            let channel = if k % 2 == 0 {
                Channel::Left
            } else {
                Channel::Right
            };
            output_routing.push((kept[k], channel));
            k += 1;
        }
        proof {
            assert(output_routing@ =~= routing_of(kept@));
            if edges_in_range(edges@) {
                lemma_valid_edges_kept(edges@);
            }
            if slots_in_range(carriers@) {
                lemma_valid_slots_kept(carriers@);
            }
        }
        FMAlgorithm { modulations, carriers: kept, output_routing }
    }

    /// The modulation edges, in the order given at construction.
    pub fn modulations(&self) -> (edges: &Vec<(usize, usize)>)
        ensures
            edges@ == self@.edges,
    {
        &self.modulations
    }

    /// The carrier slots, in the order given at construction.
    pub fn carriers(&self) -> (carriers: &Vec<usize>)
        ensures
            carriers@ == self@.carriers,
    {
        &self.carriers
    }

    /// For each carrier, in order, the side of the stereo bus that its
    /// output is added to.
    pub fn output_routing(&self) -> (routing: &Vec<(usize, Channel)>)
        ensures
            routing@ == self@.routing,
    {
        &self.output_routing
    }

    /// Whether the output of `slot` reaches the stereo bus.
    pub fn is_carrier(&self, slot: usize) -> (found: bool)
        ensures
            found == self@.is_carrier(slot),
    {
        let mut k: usize = 0;
        while k < self.carriers.len()
            invariant
                k <= self.carriers@.len(),
                forall|j: int| 0 <= j < k ==> self.carriers@[j] != slot,
            decreases self.carriers@.len() - k,
        {
            if self.carriers[k] == slot {
                return true;
            }
            k += 1;
        }
        false
    }

    /// Whether `slot` is a modulator: the source of some edge, and no
    /// carrier.
    pub fn is_modulator(&self, slot: usize) -> (found: bool)
        ensures
            found == self@.is_modulator(slot),
    {
        if self.is_carrier(slot) {
            return false;
        }
        let mut k: usize = 0;
        while k < self.modulations.len()
            invariant
                k <= self.modulations@.len(),
                !self@.is_carrier(slot),
                forall|j: int| 0 <= j < k ==> (#[trigger] self.modulations@[j]).0 != slot,
            decreases self.modulations@.len() - k,
        {
            if self.modulations[k].0 == slot {
                assert(self@.edges[k as int].0 == slot);
                return true;
            }
            k += 1;
        }
        false
    }

    /// A copy with the same graph.
    pub fn duplicate(&self) -> (copy: FMAlgorithm)
        ensures
            copy@ == self@,
    {
        FMAlgorithm {
            modulations: copy_list(&self.modulations),
            carriers: copy_list(&self.carriers),
            output_routing: copy_list(&self.output_routing),
        }
    }
}

/// The preset algorithms, in the order of their index.
pub fn get_algorithms() -> (algorithms: Vec<FMAlgorithm>)
    ensures
        algorithms@.len() == NUM_ALGORITHMS,
        forall|i: int|
            0 <= i < NUM_ALGORITHMS ==> (#[trigger] algorithms@[i]).wf() && algorithms@[i]@
                == preset(i),
{
    let mut algorithms: Vec<FMAlgorithm> = Vec::new();
    let edges: Vec<(usize, usize)> = vec![(2, 0), (1, 0), (1, 3)];
    let carriers: Vec<usize> = vec![0, 3];
    assert(edges@ =~= preset_edges(0));
    assert(carriers@ =~= preset_carriers(0));
    algorithms.push(FMAlgorithm::custom(edges, carriers));
    let edges: Vec<(usize, usize)> = vec![(1, 0), (2, 0), (3, 0)];
    let carriers: Vec<usize> = vec![0];
    assert(edges@ =~= preset_edges(1));
    assert(carriers@ =~= preset_carriers(1));
    algorithms.push(FMAlgorithm::custom(edges, carriers));
    let edges: Vec<(usize, usize)> = vec![(3, 1), (1, 0), (2, 0)];
    let carriers: Vec<usize> = vec![0];
    assert(edges@ =~= preset_edges(2));
    assert(carriers@ =~= preset_carriers(2));
    algorithms.push(FMAlgorithm::custom(edges, carriers));
    let edges: Vec<(usize, usize)> = vec![(3, 1), (2, 1), (1, 0), (2, 0)];
    let carriers: Vec<usize> = vec![0];
    assert(edges@ =~= preset_edges(3));
    assert(carriers@ =~= preset_carriers(3));
    algorithms.push(FMAlgorithm::custom(edges, carriers));
    let edges: Vec<(usize, usize)> = vec![(3, 0), (2, 1), (1, 2)];
    let carriers: Vec<usize> = vec![0];
    assert(edges@ =~= preset_edges(4));
    assert(carriers@ =~= preset_carriers(4));
    algorithms.push(FMAlgorithm::custom(edges, carriers));
    let edges: Vec<(usize, usize)> = vec![(1, 0), (2, 0), (3, 2)];
    let carriers: Vec<usize> = vec![0];
    assert(edges@ =~= preset_edges(5));
    assert(carriers@ =~= preset_carriers(5));
    algorithms.push(FMAlgorithm::custom(edges, carriers));
    let edges: Vec<(usize, usize)> = vec![(3, 0), (2, 0), (1, 0)];
    let carriers: Vec<usize> = vec![0];
    assert(edges@ =~= preset_edges(6));
    assert(carriers@ =~= preset_carriers(6));
    algorithms.push(FMAlgorithm::custom(edges, carriers));
    let edges: Vec<(usize, usize)> = vec![(3, 2), (3, 1), (2, 0), (1, 0)];
    let carriers: Vec<usize> = vec![0, 1];
    assert(edges@ =~= preset_edges(7));
    assert(carriers@ =~= preset_carriers(7));
    algorithms.push(FMAlgorithm::custom(edges, carriers));
    algorithms
}

} // verus!
