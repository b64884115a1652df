use hodos::frontier::{Frontier, MaxHeap, MinHeap};
use hodos::graph::{Edge, Graph, Node};
use hodos::policy::{Authorize, Composite, Not, Policy, Terminate};
use hodos::preset::policies::authorize::{AuthBudget, UniqueNode, UniqueUnweightedEdge};
use hodos::preset::policies::budget::EdgeBudget;
use hodos::preset::policies::traversal::{
    GoalReached, NoTermination, OpeningBudget, OpeningExhausted,
};
use hodos::preset::policies::value::{AllowAll, DenyAll};
use hodos::preset::visitors::{SimpleVisitor, WeightedVisitor};
use hodos::preset::{DataNode, EmptyNode, UnweightedEdge, WeightedEdge};
use hodos::strategy::Visitor;

#[test]
fn add_node_keeps_one_entry_per_id_and_the_last_write() {
    let mut graph = Graph::<DataNode<u32>, UnweightedEdge>::new();
    graph.add_node(DataNode::new(7, Some(1)));
    graph.add_node(DataNode::new(8, Some(2)));
    graph.add_node(DataNode::new(7, Some(3)));

    assert_eq!(graph.get_nodes().len(), 2);
    assert_eq!(graph.nodes.len(), 2);
    assert_eq!(graph.nodes.get(&7).unwrap().data(), Some(&3));
    assert_eq!(graph.nodes.get(&8).unwrap().data(), Some(&2));
    assert!(graph.has_node(7));
    assert!(graph.has_node(8));
    assert!(!graph.has_node(9));
    let with_seven = graph.get_nodes().iter().filter(|n| n.id() == 7).count();
    assert_eq!(with_seven, 1);
}

#[test]
fn add_edge_takes_dangling_edges_and_keeps_the_order_of_each_source() {
    let mut graph = Graph::<EmptyNode, WeightedEdge>::new();
    assert_eq!(graph.count_edges(), 0);
    graph.add_edge(WeightedEdge::new(5, 6, Some(2)));
    graph.add_edge(WeightedEdge::new(5, 7, Some(3)));
    graph.add_edge(WeightedEdge::new(9, 5, None));
    graph.add_edge(WeightedEdge::new(5, 6, Some(4)));

    assert!(graph.nodes.is_empty());
    assert_eq!(graph.edges.len(), 2);
    assert_eq!(graph.count_edges(), 4);
    assert_eq!(graph.get_edges().len(), 4);
    let from_five: Vec<(u32, i64)> = graph
        .edges
        .get(&5)
        .unwrap()
        .iter()
        .map(|e| (e.to(), e.weight()))
        .collect();
    assert_eq!(from_five, vec![(6, 2), (7, 3), (6, 4)]);
    assert!(graph.has_edge(5, 6));
    assert!(graph.has_edge(9, 5));
    assert!(!graph.has_edge(6, 5));
    assert_eq!(graph.weight_of(5, 6), Some(2));
    assert_eq!(graph.weight_of(9, 5), Some(1));
    assert_eq!(graph.weight_of(6, 5), None);
}

#[test]
fn and_of_allow_all_and_deny_all_is_false_or_is_true_not_deny_all_allows() {
    let graph = Graph::<EmptyNode, UnweightedEdge>::new();
    let mut full = Graph::<EmptyNode, UnweightedEdge>::new();
    full.add_node(EmptyNode::new(1, None));
    full.add_edge(UnweightedEdge::new(1, 1, None));

    for id in [0, 1, 42] {
        let node = EmptyNode::new(id, None);
        let edge = UnweightedEdge::new(id, id + 1, None);
        for context in [&graph, &full] {
            let and = Composite::And(AllowAll::default(), DenyAll::default());
            let or = Composite::Or(AllowAll::default(), DenyAll::default());
            let not = Not::new(DenyAll::default());
            assert!(!and.is_compliant(&node, context));
            assert!(!and.is_compliant(&edge, context));
            assert!(or.is_compliant(&node, context));
            assert!(or.is_compliant(&edge, context));
            assert!(not.is_compliant(&node, context));
            assert!(not.is_compliant(&edge, context));
            assert_eq!(
                not.is_compliant(&node, context),
                AllowAll::default().is_compliant(&node, context)
            );
            assert!(!Not::new(AllowAll::default()).is_compliant(&node, context));
        }
    }
}

#[test]
fn identity_and_absorbing_operands() {
    let mut graph = Graph::<EmptyNode, UnweightedEdge>::new();
    let node = EmptyNode::new(0, None);
    for size in 0..3 {
        let budget = || EdgeBudget::new(2);
        let expected = budget().is_compliant(&node, &graph);
        assert_eq!(expected, size < 2);
        assert_eq!(
            Composite::And(budget(), AllowAll::default()).is_compliant(&node, &graph),
            expected
        );
        assert_eq!(
            Composite::And(AllowAll::default(), budget()).is_compliant(&node, &graph),
            expected
        );
        assert_eq!(
            Composite::Or(budget(), DenyAll::default()).is_compliant(&node, &graph),
            expected
        );
        assert_eq!(
            Composite::Or(DenyAll::default(), budget()).is_compliant(&node, &graph),
            expected
        );
        assert!(!Composite::And(budget(), DenyAll::default()).is_compliant(&node, &graph));
        assert!(Composite::Or(budget(), AllowAll::default()).is_compliant(&node, &graph));
        // Chained combinators decide as nested ones.
        assert_eq!(
            Composite::And(budget(), AllowAll::default())
                .and(budget())
                .is_compliant(&node, &graph),
            Composite::And(budget(), Composite::And(AllowAll::default(), budget()))
                .is_compliant(&node, &graph)
        );
        assert_eq!(
            Composite::Or(budget(), DenyAll::default())
                .or(budget())
                .is_compliant(&node, &graph),
            Composite::Or(budget(), Composite::Or(DenyAll::default(), budget()))
                .is_compliant(&node, &graph)
        );
        graph.add_edge(UnweightedEdge::new(size, size, None));
    }
}

#[test]
fn a_budget_admits_exactly_the_first_calls_whatever_the_entities() {
    for budget in [0u32, 1, 3, 10] {
        let mut policy = AuthBudget::with_max(budget);
        for call in 0..budget + 5 {
            let admitted = if call % 2 == 0 {
                policy.add(&EmptyNode::new(call, None), &())
            } else {
                policy.add(&UnweightedEdge::new(call, call, None), &"context")
            };
            assert_eq!(admitted, call < budget);
            assert_eq!(policy.remaining(), budget.saturating_sub(call + 1));
        }
    }
}

#[test]
fn composite_admission_always_asks_both_operands() {
    // With the right operand skipped, its budget would be left for the second call.
    let mut policy = Composite::Or(UniqueNode::default(), AuthBudget::with_max(1));
    let node = EmptyNode::new(0, None);
    assert!(policy.add(&node, &()));
    assert!(!policy.add(&node, &()));

    // With the right operand skipped, it would not have seen node 0.
    let mut policy = Composite::And(AuthBudget::with_max(0), UniqueNode::default());
    assert!(!policy.add(&node, &()));
    match policy {
        Composite::And(_, mut unique) => assert!(!unique.add(&node, &())),
        Composite::Or(_, _) => unreachable!(),
    }
}

#[test]
fn a_negated_admission_still_records() {
    let mut policy = Not::new(UniqueNode::default());
    let node = EmptyNode::new(0, None);
    assert!(!policy.add(&node, &()));
    assert!(policy.add(&node, &()));
    assert!(policy.add(&node, &()));

    let mut policy = Not::new(AuthBudget::with_max(2));
    assert!(!policy.add(&node, &()));
    assert!(!policy.add(&node, &()));
    assert!(policy.add(&node, &()));
    assert_eq!(policy.inner().remaining(), 0);
}

#[test]
fn unique_policies_refuse_what_they_have_seen() {
    let mut policy = UniqueNode::default();
    assert!(policy.add(&EmptyNode::new(0, None), &()));
    assert!(!policy.add(&EmptyNode::new(0, None), &()));
    assert!(policy.add(&EmptyNode::new(1, None), &()));

    let mut policy = UniqueUnweightedEdge::default();
    assert!(policy.add(&UnweightedEdge::new(0, 1, None), &()));
    assert!(!policy.add(&UnweightedEdge::new(0, 1, None), &()));
    assert!(policy.add(&UnweightedEdge::new(1, 0, None), &()));
    assert!(policy.add(&UnweightedEdge::new(u32::MAX, 0, None), &()));
    assert!(policy.add(&UnweightedEdge::new(0, u32::MAX, None), &()));
    assert!(!policy.add(&WeightedEdge::new(u32::MAX, 0, Some(5)), &()));
    assert!(policy.add(&UnweightedEdge::new(u32::MAX, u32::MAX, None), &()));
    assert!(!policy.add(&UnweightedEdge::new(u32::MAX, u32::MAX, None), &()));
}

#[test]
fn terminate_policies_compose() {
    let goal = GoalReached::new(3);
    assert!(goal.stop(Some(3)));
    assert!(!goal.stop(Some(4)));
    assert!(!goal.stop(None));
    assert!(!NoTermination.stop(Some(3)));
    assert!(!NoTermination.stop(None));

    let either = Composite::Or(GoalReached::new(3), GoalReached::new(5));
    assert!(either.stop(Some(3)));
    assert!(either.stop(Some(5)));
    assert!(!either.stop(Some(4)));
    let both = Composite::And(GoalReached::new(3), NoTermination);
    assert!(!both.stop(Some(3)));
    let not = Not::new(GoalReached::new(3));
    assert!(!not.stop(Some(3)));
    assert!(not.stop(Some(4)));
    assert!(not.stop(None));
}

#[test]
fn opening_policies_count_the_records_of_the_visitor() {
    let mut visitor = SimpleVisitor::new(NoTermination);
    let budget = OpeningBudget { max_opening: 2 };
    let exhausted = OpeningExhausted::new(2);
    assert!(budget.is_compliant(&0, &visitor));
    assert!(!exhausted.is_compliant(&0, &visitor));
    visitor.visit(0, &());
    assert!(budget.is_compliant(&0, &visitor));
    assert!(!exhausted.is_compliant(&0, &visitor));
    // A node that was reached counts as much as one that was visited.
    assert!(visitor.should_explore(0, 1, &()));
    assert!(!budget.is_compliant(&0, &visitor));
    assert!(exhausted.is_compliant(&0, &visitor));
}

fn diamond() -> Graph<EmptyNode, WeightedEdge> {
    // 0 -> 1 (1), 0 -> 2 (5), 1 -> 2 (1), 2 -> 3 (1), 3 -> 0 (1)
    let mut graph = Graph::new();
    for id in 0..4 {
        graph.add_node(EmptyNode::new(id, None));
    }
    graph.add_edge(WeightedEdge::new(0, 1, Some(1)));
    graph.add_edge(WeightedEdge::new(0, 2, Some(5)));
    graph.add_edge(WeightedEdge::new(1, 2, Some(1)));
    graph.add_edge(WeightedEdge::new(2, 3, Some(1)));
    graph.add_edge(WeightedEdge::new(3, 0, Some(1)));
    graph
}

#[test]
fn least_cost_first_search_relaxes_and_ends_on_a_cycle() {
    let graph = diamond();
    let mut visitor = WeightedVisitor::new(NoTermination);
    let mut frontier = MinHeap::new();
    graph.traverse(0, &mut frontier, &mut visitor);

    assert!(frontier.is_empty());
    assert_eq!(visitor.distances.get(&0), Some(&0));
    assert_eq!(visitor.distances.get(&1), Some(&1));
    assert_eq!(visitor.distances.get(&2), Some(&2));
    assert_eq!(visitor.distances.get(&3), Some(&3));
    assert_eq!(visitor.parents.get(&2), Some(&1));
    assert_eq!(visitor.parents.get(&3), Some(&2));
    assert_eq!(visitor.parents.get(&0), None);
}

#[test]
fn greatest_cost_first_search_ends_on_a_cycle_too() {
    let graph = diamond();
    let mut visitor = WeightedVisitor::new(NoTermination);
    let mut frontier = MaxHeap::new();
    graph.traverse(0, &mut frontier, &mut visitor);

    assert!(frontier.is_empty());
    // Node 2 is first reached at distance 5 and popped at once; the way over
    // node 1 lowers it to 2 afterwards.
    assert_eq!(visitor.distances.get(&2), Some(&2));
    assert_eq!(visitor.parents.get(&2), Some(&1));
    assert_eq!(visitor.distances.get(&3), Some(&3));
}

#[test]
fn simple_visitor_on_a_heap_ends_on_a_cycle() {
    let graph = diamond();
    let mut visitor = SimpleVisitor::new(NoTermination);
    let mut frontier = MinHeap::new();
    graph.traverse(0, &mut frontier, &mut visitor);
    assert!(frontier.is_empty());
    assert_eq!(visitor.visited.len(), 4);
    // The start node is on record without a parent.
    assert_eq!(visitor.visited.get(&0), Some(&None));
}
