use hodos::graph::{Cost, Edge, Graph, Node};
use hodos::policy::Policy;
use hodos::preset::policies::traversal::NoTermination;
use hodos::preset::visitors::{
    CountVisited, SimpleVisitor, TrackParent, WeightedVisitor,
};
use hodos::strategy::Visitor;

#[derive(Debug, Default)]
pub struct Terminate {}

impl Policy<u32, SimpleVisitor<Self>> for Terminate {
    fn is_compliant(&self, _: &u32, __: &SimpleVisitor<Self>) -> bool {
        true
    }
}

#[test]
fn defaults_with_empty_visited_hashset() {
    let visitor = SimpleVisitor::new(Terminate::default());
    assert_eq!(visitor.visited.len(), 0);
}

#[test]
fn adds_id_to_visited() {
    let mut visitor = SimpleVisitor::new(Terminate::default());
    assert_eq!(visitor.visited.len(), 0);

    visitor.visit(0, &());
    visitor.visit(1, &());
    visitor.visit(2, &());

    assert_eq!(visitor.visited.len(), 3);
    assert!(visitor.visited.contains_key(&0));
    assert!(visitor.visited.contains_key(&1));
    assert!(visitor.visited.contains_key(&2));
}

#[test]
fn explores_unvisited() {
    let mut visitor = SimpleVisitor::new(Terminate::default());

    assert!(!visitor.visited.contains_key(&1));
    assert!(visitor.should_explore(0, 1, &()));
}

#[test]
fn does_not_visit_twice() {
    let mut visitor = SimpleVisitor::new(Terminate::default());

    visitor.visit(1, &());

    assert!(visitor.visited.contains_key(&1));
    assert!(!visitor.should_explore(0, 1, &()));
}

#[test]
fn stops_when_policy_returns_true() {
    let visitor = SimpleVisitor::new(Terminate::default());

    assert!(visitor.should_stop(0, &()));
}

#[test]
fn simple_visitor_records_the_first_parent_only() {
    let mut visitor = SimpleVisitor::new(Terminate::default());

    assert_eq!(visitor.get_parent(1), None);
    assert!(visitor.should_explore(0, 1, &()));
    assert_eq!(visitor.get_parent(1), Some(0));
    assert!(!visitor.should_explore(2, 1, &()));
    assert_eq!(visitor.get_parent(1), Some(0));

    visitor.visit(1, &());
    assert_eq!(visitor.get_parent(1), Some(0));
    visitor.visit(5, &());
    assert_eq!(visitor.get_parent(5), None);
    assert_eq!(visitor.visited_count(), 2);

    assert_eq!(visitor.init_cost(0, &()), 0);
    assert_eq!(visitor.exploration_cost(0, 1, &()), 1);
}

pub struct MockNode;

impl Node for MockNode {
    type Data = ();

    fn new(_id: u32, _data: Option<Self::Data>) -> Self {
        MockNode
    }
    fn id(&self) -> u32 {
        0
    }
    fn data(&self) -> Option<&Self::Data> {
        None
    }
}

#[derive(Default)]
pub struct MockWeightedEdge {
    pub from: u32,
    pub to: u32,
    pub weight: Cost,
}

impl Edge for MockWeightedEdge {
    fn new(from: u32, to: u32, weight: Option<Cost>) -> Self {
        MockWeightedEdge {
            from,
            to,
            weight: weight.unwrap_or(1),
        }
    }
    fn to(&self) -> u32 {
        self.to
    }
    fn from(&self) -> u32 {
        self.from
    }
    fn weight(&self) -> Cost {
        self.weight
    }
}

fn weighted_visitor() -> WeightedVisitor<NoTermination> {
    WeightedVisitor::default()
}

#[test]
fn defaults_with_empty_distances() {
    let visitor = weighted_visitor();
    assert_eq!(visitor.distances.len(), 0);
}

#[test]
fn visit_initializes_start_node_to_zero() {
    let mut visitor = weighted_visitor();
    let graph = Graph::<MockNode, MockWeightedEdge>::new();
    assert_eq!(visitor.distances.len(), 0);

    visitor.visit(0, &graph);

    assert_eq!(visitor.distances.len(), 1);
    assert_eq!(visitor.distances.get(&0), Some(&0));
}

#[test]
fn explores_unvisited_node() {
    let mut visitor = weighted_visitor();
    let graph = Graph::<MockNode, MockWeightedEdge>::new();

    assert!(!visitor.distances.contains_key(&1));
    assert!(visitor.should_explore(0, 1, &graph));
}

#[test]
fn explores_when_lower_cost_found() {
    let mut graph = Graph::<MockNode, MockWeightedEdge>::new();
    graph.add_edge(MockWeightedEdge::new(0, 1, Some(5)));

    let mut visitor = weighted_visitor();
    visitor.distances.insert(1, 10);

    assert!(visitor.should_explore(0, 1, &graph));
}

#[test]
fn updates_distance_when_lower_cost_found() {
    let mut graph = Graph::<MockNode, MockWeightedEdge>::new();
    graph.add_edge(MockWeightedEdge::new(0, 1, Some(5)));

    let mut visitor = weighted_visitor();
    visitor.distances.insert(1, 10);

    visitor.should_explore(0, 1, &graph);
    assert_eq!(visitor.distances.get(&1), Some(&5));
}

#[test]
fn does_not_revisit_with_equal_or_higher_cost() {
    let mut graph = Graph::<MockNode, MockWeightedEdge>::new();
    graph.add_edge(MockWeightedEdge::new(0, 1, Some(5)));

    let mut visitor = weighted_visitor();
    visitor.distances.insert(1, 5);

    assert!(!visitor.should_explore(0, 1, &graph));

    visitor.distances.insert(0, 10);
    assert!(!visitor.should_explore(0, 1, &graph));
}

#[test]
fn exploration_cost_sums_distance_and_weight() {
    let mut graph = Graph::<MockNode, MockWeightedEdge>::new();
    graph.add_edge(MockWeightedEdge::new(0, 1, Some(3)));

    let mut visitor = weighted_visitor();
    visitor.distances.insert(0, 5);

    assert_eq!(visitor.exploration_cost(0, 1, &graph), 8);
}

#[test]
fn propagates_cumulative_distances_through_path() {
    let mut graph = Graph::<MockNode, MockWeightedEdge>::new();
    graph.add_edge(MockWeightedEdge::new(0, 1, Some(2)));
    graph.add_edge(MockWeightedEdge::new(1, 2, Some(3)));

    let mut visitor = weighted_visitor();
    visitor.visit(0, &graph);

    visitor.should_explore(0, 1, &graph);
    assert_eq!(visitor.distances.get(&1), Some(&2));

    visitor.should_explore(1, 2, &graph);
    assert_eq!(visitor.distances.get(&2), Some(&5));
}

#[test]
fn chooses_shortest_path_among_alternatives() {
    let mut graph = Graph::<MockNode, MockWeightedEdge>::new();
    graph.add_edge(MockWeightedEdge::new(0, 2, Some(10)));
    graph.add_edge(MockWeightedEdge::new(0, 1, Some(2)));
    graph.add_edge(MockWeightedEdge::new(1, 2, Some(3)));

    let mut visitor = weighted_visitor();
    visitor.visit(0, &graph);

    visitor.should_explore(0, 2, &graph);
    assert_eq!(visitor.distances.get(&2), Some(&10));

    visitor.should_explore(0, 1, &graph);
    visitor.should_explore(1, 2, &graph);
    assert_eq!(visitor.distances.get(&2), Some(&5));
}

#[test]
fn exploration_cost_uses_current_distances() {
    let mut graph = Graph::<MockNode, MockWeightedEdge>::new();
    graph.add_edge(MockWeightedEdge::new(1, 2, Some(4)));

    let mut visitor = weighted_visitor();
    visitor.distances.insert(1, 7);

    let cost = visitor.exploration_cost(1, 2, &graph);
    assert_eq!(cost, 11);
}

#[test]
fn weighted_visitor_records_the_parent_of_the_least_distance() {
    let mut graph = Graph::<MockNode, MockWeightedEdge>::new();
    graph.add_edge(MockWeightedEdge::new(0, 2, Some(10)));
    graph.add_edge(MockWeightedEdge::new(0, 1, Some(2)));
    graph.add_edge(MockWeightedEdge::new(1, 2, Some(3)));

    let mut visitor = weighted_visitor();
    visitor.visit(0, &graph);
    assert_eq!(visitor.get_parent(0), None);
    assert_eq!(visitor.visited_count(), 1);

    assert!(visitor.should_explore(0, 2, &graph));
    assert_eq!(visitor.get_parent(2), Some(0));
    assert!(visitor.should_explore(0, 1, &graph));
    assert!(visitor.should_explore(1, 2, &graph));
    assert_eq!(visitor.get_parent(2), Some(1));
    assert!(!visitor.should_explore(0, 2, &graph));
    assert_eq!(visitor.get_parent(2), Some(1));
    assert_eq!(visitor.distances.get(&2), Some(&5));
    assert_eq!(visitor.visited_count(), 3);

    // A visit keeps the distance that is on record.
    visitor.visit(2, &graph);
    assert_eq!(visitor.distances.get(&2), Some(&5));
    assert_eq!(visitor.init_cost(0, &graph), 0);
}

#[test]
fn weighted_visitor_takes_the_first_of_parallel_edges_and_zero_for_none() {
    let mut graph = Graph::<MockNode, MockWeightedEdge>::new();
    graph.add_edge(MockWeightedEdge::new(0, 1, Some(7)));
    graph.add_edge(MockWeightedEdge::new(0, 1, Some(2)));

    let mut visitor = weighted_visitor();
    visitor.distances.insert(0, 1);
    assert_eq!(visitor.exploration_cost(0, 1, &graph), 8);
    assert_eq!(graph.weight_of(0, 1), Some(7));
    assert_eq!(graph.weight_of(1, 0), None);
    // No such edge: the weight counts as zero.
    assert_eq!(visitor.exploration_cost(0, 2, &graph), 1);
    assert_eq!(visitor.exploration_cost(3, 2, &graph), 0);
}

#[test]
fn weighted_visitor_holds_sums_at_the_ends_of_the_range() {
    let mut graph = Graph::<MockNode, MockWeightedEdge>::new();
    graph.add_edge(MockWeightedEdge::new(0, 1, Some(Cost::MAX)));
    graph.add_edge(MockWeightedEdge::new(2, 3, Some(Cost::MIN)));
    graph.add_edge(MockWeightedEdge::new(4, 5, Some(-3)));

    let mut visitor = weighted_visitor();
    visitor.distances.insert(0, 5);
    visitor.distances.insert(2, -5);
    visitor.distances.insert(4, 2);
    assert_eq!(visitor.exploration_cost(0, 1, &graph), Cost::MAX);
    assert_eq!(visitor.exploration_cost(2, 3, &graph), Cost::MIN);
    assert_eq!(visitor.exploration_cost(4, 5, &graph), -1);
    assert_eq!(hodos::preset::visitors::weighted_visitor::add_costs(Cost::MAX, Cost::MIN), -1);
    assert_eq!(hodos::preset::visitors::weighted_visitor::add_costs(Cost::MAX, 1), Cost::MAX);
    assert_eq!(hodos::preset::visitors::weighted_visitor::add_costs(Cost::MIN, -1), Cost::MIN);
    assert_eq!(hodos::preset::visitors::weighted_visitor::add_costs(3, 4), 7);
}
