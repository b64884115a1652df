use hodos::graph::{Cost, Edge, Node};
use hodos::preset::{DataNode, EmptyNode, UnweightedEdge, WeightedEdge};

#[derive(Debug, PartialEq, Clone, Copy)]
struct TestData {
    val1: u32,
    val2: bool,
}

#[test]
fn set_data_updates_node_data() {
    let data1 = TestData {
        val1: 0,
        val2: false,
    };
    let data2 = TestData {
        val1: 1,
        val2: true,
    };

    let mut node = DataNode::new(0, Some(data1));
    assert_eq!(node.data(), Some(&data1));

    node.set_data(&data2);
    assert_eq!(node.data(), Some(&data2));
}

#[test]
fn set_data_keeps_the_identifier() {
    let mut node = DataNode::new(42, Some(true));
    assert_eq!(node.id(), 42);
    assert_eq!(node.data(), Some(&true));
    node.set_data(&false);
    assert_eq!(node.id(), 42);
    assert_eq!(node.data(), Some(&false));
}

#[test]
fn empty_node_holds_no_data_and_ignores_set_data() {
    let mut node = EmptyNode::new(42, None);
    assert_eq!(node.id(), 42);
    assert!(node.data().is_none());
    node.set_data(&());
    assert_eq!(node.id(), 42);
    assert!(node.data().is_none());
}

#[test]
fn unweighted_edge_has_unit_weight_whatever_it_is_given() {
    let edge = UnweightedEdge::new(0, 1, None);
    assert_eq!(edge.from(), 0);
    assert_eq!(edge.to(), 1);
    assert_eq!(edge.weight(), 1);

    let mut edge = UnweightedEdge::new(3, 2, Some(9));
    assert_eq!(edge.from(), 3);
    assert_eq!(edge.to(), 2);
    assert_eq!(edge.weight(), 1);

    edge.set_weight(7);
    assert_eq!(edge.weight(), 1);
    assert_eq!(edge.from(), 3);
    assert_eq!(edge.to(), 2);
}

#[test]
fn weighted_edge_stores_its_weight_or_the_unit_weight() {
    let edge = WeightedEdge::new(0, 1, Some(5));
    assert_eq!(edge.from(), 0);
    assert_eq!(edge.to(), 1);
    assert_eq!(edge.weight(), 5);

    let edge = WeightedEdge::new(0, 1, None);
    assert_eq!(edge.weight(), 1);

    let edge = WeightedEdge::new(0, 1, Some(-3));
    assert_eq!(edge.weight(), -3);

    let least: Cost = Cost::MIN;
    let edge = WeightedEdge::new(0, 1, Some(least));
    assert_eq!(edge.weight(), Cost::MIN);
}
