use synth_engine::algorithm::{get_algorithms, Channel, FMAlgorithm, NUM_ALGORITHMS, NUM_OPERATORS};

#[test]
fn presets_are_eight() {
    let algorithms = get_algorithms();
    assert_eq!(algorithms.len(), 8);
    assert_eq!(NUM_ALGORITHMS, 8);
    assert_eq!(NUM_OPERATORS, 4);
}

#[test]
fn preset_tables() {
    let algorithms = get_algorithms();
    let edges: Vec<Vec<(usize, usize)>> = vec![
        vec![(2, 0), (1, 0), (1, 3)],
        vec![(1, 0), (2, 0), (3, 0)],
        vec![(3, 1), (1, 0), (2, 0)],
        vec![(3, 1), (2, 1), (1, 0), (2, 0)],
        vec![(3, 0), (2, 1), (1, 2)],
        vec![(1, 0), (2, 0), (3, 2)],
        vec![(3, 0), (2, 0), (1, 0)],
        vec![(3, 2), (3, 1), (2, 0), (1, 0)],
    ];
    let carriers: Vec<Vec<usize>> = vec![
        vec![0, 3],
        vec![0],
        vec![0],
        vec![0],
        vec![0],
        vec![0],
        vec![0],
        vec![0, 1],
    ];
    for i in 0..8 {
        assert_eq!(algorithms[i].modulations(), &edges[i]);
        assert_eq!(algorithms[i].carriers(), &carriers[i]);
    }
}

#[test]
fn preset_routing_alternates() {
    let algorithms = get_algorithms();
    assert_eq!(
        algorithms[0].output_routing(),
        &vec![(0, Channel::Left), (3, Channel::Right)]
    );
    assert_eq!(algorithms[1].output_routing(), &vec![(0, Channel::Left)]);
    assert_eq!(
        algorithms[7].output_routing(),
        &vec![(0, Channel::Left), (1, Channel::Right)]
    );
}

#[test]
fn custom_keeps_valid_input_as_given() {
    let algorithm = FMAlgorithm::custom(vec![(3, 2), (2, 2), (2, 1), (1, 0)], vec![0, 2, 1]);
    assert_eq!(algorithm.modulations(), &vec![(3, 2), (2, 2), (2, 1), (1, 0)]);
    assert_eq!(algorithm.carriers(), &vec![0, 2, 1]);
    assert_eq!(
        algorithm.output_routing(),
        &vec![(0, Channel::Left), (2, Channel::Right), (1, Channel::Left)]
    );
}

#[test]
fn custom_ignores_slots_that_do_not_exist() {
    let algorithm = FMAlgorithm::custom(vec![(0, 1), (4, 1), (2, 9), (3, 3)], vec![7, 1, 0]);
    assert_eq!(algorithm.modulations(), &vec![(0, 1), (3, 3)]);
    assert_eq!(algorithm.carriers(), &vec![1, 0]);
    assert_eq!(
        algorithm.output_routing(),
        &vec![(1, Channel::Left), (0, Channel::Right)]
    );
}

#[test]
fn custom_of_nothing_is_empty() {
    let algorithm = FMAlgorithm::custom(Vec::new(), Vec::new());
    assert!(algorithm.modulations().is_empty());
    assert!(algorithm.carriers().is_empty());
    assert!(algorithm.output_routing().is_empty());
}

#[test]
fn carriers_given_twice_are_routed_twice() {
    let algorithm = FMAlgorithm::custom(Vec::new(), vec![0, 0]);
    assert_eq!(
        algorithm.output_routing(),
        &vec![(0, Channel::Left), (0, Channel::Right)]
    );
}

#[test]
fn carriers_and_modulators() {
    let algorithm = FMAlgorithm::custom(vec![(2, 0), (1, 0), (1, 3), (3, 3)], vec![0, 3]);
    assert!(algorithm.is_carrier(0));
    assert!(!algorithm.is_carrier(1));
    assert!(!algorithm.is_carrier(2));
    assert!(algorithm.is_carrier(3));
    assert!(!algorithm.is_carrier(4));
    // Slot 0 is the source of no edge; slot 3 is a source but a carrier too.
    assert!(!algorithm.is_modulator(0));
    assert!(algorithm.is_modulator(1));
    assert!(algorithm.is_modulator(2));
    assert!(!algorithm.is_modulator(3));
    assert!(!algorithm.is_modulator(4));
}

#[test]
fn feedback_alone_makes_a_modulator() {
    let algorithm = FMAlgorithm::custom(vec![(1, 1)], vec![0]);
    assert!(algorithm.is_modulator(1));
    assert!(!algorithm.is_modulator(0));
}

#[test]
fn duplicate_is_the_same_graph() {
    let algorithm = FMAlgorithm::custom(vec![(3, 1), (1, 0)], vec![0, 2]);
    let copy = algorithm.duplicate();
    assert_eq!(copy.modulations(), algorithm.modulations());
    assert_eq!(copy.carriers(), algorithm.carriers());
    assert_eq!(copy.output_routing(), algorithm.output_routing());
}
