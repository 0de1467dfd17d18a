use katalog_lib::sweep::{must_reclaim, stale_nodes, NodeCondition};
use katalog_lib::sweep::NodeCondition::{Alive, Dead, Inaccessible, Undefined};

#[test]
fn only_dead_nodes_are_reclaimed() {
    assert!(must_reclaim(Dead));
    assert!(!must_reclaim(Alive));
    assert!(!must_reclaim(Inaccessible));
    assert!(!must_reclaim(Undefined));
}

#[test]
fn sweep_lists_the_dead_nodes_in_order() {
    let nodes = [Alive, Dead, Inaccessible, Dead, Undefined, Dead, Alive];
    assert_eq!(stale_nodes(&nodes), vec![1, 3, 5]);
}

#[test]
fn sweep_of_healthy_nodes_is_empty() {
    assert_eq!(stale_nodes(&[Alive, Alive, Inaccessible, Undefined]), Vec::<usize>::new());
    let none: [NodeCondition; 0] = [];
    assert_eq!(stale_nodes(&none), Vec::<usize>::new());
}

#[test]
fn sweep_of_dead_nodes_lists_them_all() {
    assert_eq!(stale_nodes(&[Dead, Dead, Dead]), vec![0, 1, 2]);
}
