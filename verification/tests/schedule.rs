use synth_engine::algorithm::{get_algorithms, FMAlgorithm};
use synth_engine::schedule::{EvalStep, ModGroup, PhaseInput};

fn resolved(slot: usize) -> EvalStep {
    EvalStep { slot, forced: false }
}

fn forced(slot: usize) -> EvalStep {
    EvalStep { slot, forced: true }
}

fn order_of(edges: Vec<(usize, usize)>) -> Vec<EvalStep> {
    FMAlgorithm::custom(edges, vec![0]).evaluation_order()
}

#[test]
fn no_edges_evaluates_in_slot_order() {
    assert_eq!(
        order_of(Vec::new()),
        vec![resolved(0), resolved(1), resolved(2), resolved(3)]
    );
}

#[test]
fn preset_orders() {
    let algorithms = get_algorithms();
    let expected: Vec<Vec<EvalStep>> = vec![
        vec![resolved(1), resolved(2), resolved(3), resolved(0)],
        vec![resolved(1), resolved(2), resolved(3), resolved(0)],
        vec![resolved(2), resolved(3), resolved(1), resolved(0)],
        vec![resolved(2), resolved(3), resolved(1), resolved(0)],
        vec![resolved(3), resolved(0), forced(1), forced(2)],
        vec![resolved(1), resolved(3), resolved(2), resolved(0)],
        vec![resolved(1), resolved(2), resolved(3), resolved(0)],
        vec![resolved(3), resolved(1), resolved(2), resolved(0)],
    ];
    for i in 0..8 {
        assert_eq!(algorithms[i].evaluation_order(), expected[i]);
    }
}

#[test]
fn rising_chain_resolves_in_one_sweep() {
    assert_eq!(
        order_of(vec![(0, 1), (1, 2), (2, 3)]),
        vec![resolved(0), resolved(1), resolved(2), resolved(3)]
    );
}

#[test]
fn falling_chain_needs_every_sweep() {
    assert_eq!(
        order_of(vec![(3, 2), (2, 1), (1, 0)]),
        vec![resolved(3), resolved(2), resolved(1), resolved(0)]
    );
}

#[test]
fn feedback_never_blocks() {
    assert_eq!(
        order_of(vec![(0, 0), (1, 1), (2, 2), (3, 3)]),
        vec![resolved(0), resolved(1), resolved(2), resolved(3)]
    );
    assert_eq!(
        order_of(vec![(3, 2), (2, 2), (2, 1), (1, 0), (0, 0)]),
        order_of(vec![(3, 2), (2, 1), (1, 0)])
    );
}

#[test]
fn full_cycle_forces_every_slot() {
    assert_eq!(
        order_of(vec![(0, 1), (1, 2), (2, 3), (3, 0)]),
        vec![forced(0), forced(1), forced(2), forced(3)]
    );
}

#[test]
fn slot_behind_a_cycle_is_forced_too() {
    assert_eq!(
        order_of(vec![(0, 1), (1, 0), (1, 2)]),
        vec![resolved(3), forced(0), forced(1), forced(2)]
    );
}

#[test]
fn slot_before_a_cycle_is_resolved() {
    assert_eq!(
        order_of(vec![(3, 1), (1, 2), (2, 1), (3, 0)]),
        vec![resolved(3), resolved(0), forced(1), forced(2)]
    );
}

#[test]
fn order_of_edges_and_repeats_do_not_matter() {
    let one = order_of(vec![(3, 1), (2, 1), (1, 0), (2, 0)]);
    let other = order_of(vec![(2, 0), (1, 0), (2, 1), (3, 1), (3, 1), (2, 0)]);
    assert_eq!(one, other);
}

#[test]
fn every_slot_once_for_every_graph_on_two_edges() {
    for a in 0..4 {
        for b in 0..4 {
            for c in 0..4 {
                for d in 0..4 {
                    let order = order_of(vec![(a, b), (c, d)]);
                    assert_eq!(order.len(), 4);
                    let mut seen = [0usize; 4];
                    for step in order.iter() {
                        seen[step.slot] += 1;
                    }
                    assert_eq!(seen, [1, 1, 1, 1]);
                }
            }
        }
    }
}

#[test]
fn sources_come_first_for_every_graph_on_three_edges() {
    for code in 0..4096usize {
        let edges = vec![
            (code % 4, (code / 4) % 4),
            ((code / 16) % 4, (code / 64) % 4),
            ((code / 256) % 4, (code / 1024) % 4),
        ];
        let order = order_of(edges.clone());
        for (position, step) in order.iter().enumerate() {
            for &(source, dest) in edges.iter() {
                if dest != step.slot || source == dest {
                    continue;
                }
                let earlier = order[..position]
                    .iter()
                    .any(|s| s.slot == source && !s.forced);
                let source_forced = order.iter().any(|s| s.slot == source && s.forced);
                if step.forced {
                    continue;
                }
                assert!(earlier);
                assert!(!source_forced);
            }
            if step.forced {
                let fed_by_forced = edges.iter().any(|&(source, dest)| {
                    dest == step.slot
                        && source != dest
                        && order.iter().any(|s| s.slot == source && s.forced)
                });
                assert!(fed_by_forced);
            }
        }
    }
}

#[test]
fn phase_inputs_follow_the_edges() {
    let algorithm = FMAlgorithm::custom(
        vec![(2, 0), (0, 0), (1, 0), (1, 3), (2, 0), (3, 0)],
        vec![0, 3],
    );
    assert_eq!(
        algorithm.phase_inputs(0),
        vec![
            PhaseInput::Modulation { source: 2, group: ModGroup::B },
            PhaseInput::Feedback,
            PhaseInput::Modulation { source: 1, group: ModGroup::A },
            PhaseInput::Modulation { source: 2, group: ModGroup::B },
            PhaseInput::Modulation { source: 3, group: ModGroup::B },
        ]
    );
    assert_eq!(
        algorithm.phase_inputs(3),
        vec![PhaseInput::Modulation { source: 1, group: ModGroup::A }]
    );
    assert!(algorithm.phase_inputs(1).is_empty());
    assert!(algorithm.phase_inputs(2).is_empty());
    assert!(algorithm.phase_inputs(4).is_empty());
}

#[test]
fn groups_of_slots() {
    assert_eq!(ModGroup::of_slot(0), ModGroup::A);
    assert_eq!(ModGroup::of_slot(1), ModGroup::A);
    assert_eq!(ModGroup::of_slot(2), ModGroup::B);
    assert_eq!(ModGroup::of_slot(3), ModGroup::B);
}

#[test]
fn tick_plan_joins_order_and_inputs() {
    let algorithm = FMAlgorithm::custom(vec![(3, 0), (2, 1), (1, 2), (1, 1), (0, 0)], vec![0]);
    let plan = algorithm.tick_plan();
    assert_eq!(plan.len(), 4);
    assert_eq!(plan[0].slot, 3);
    assert!(!plan[0].forced);
    assert!(plan[0].inputs.is_empty());
    assert_eq!(plan[1].slot, 0);
    assert!(!plan[1].forced);
    assert_eq!(
        plan[1].inputs,
        vec![
            PhaseInput::Modulation { source: 3, group: ModGroup::B },
            PhaseInput::Feedback,
        ]
    );
    // The two slots of the cycle get no input at all, not even feedback.
    assert_eq!(plan[2].slot, 1);
    assert!(plan[2].forced);
    assert!(plan[2].inputs.is_empty());
    assert_eq!(plan[3].slot, 2);
    assert!(plan[3].forced);
    assert!(plan[3].inputs.is_empty());
}
