use hodos::graph::Graph;
use hodos::policy::Composite;
use hodos::preset::policies::traversal::{GoalReached, OpeningExhausted};
use hodos::preset::visitors::{SimpleVisitor, WeightedVisitor};
use hodos::preset::{EmptyNode, WeightedEdge};
use hodos::strategy::Visitor;

fn get_graph() -> Graph<EmptyNode, WeightedEdge> {
    Graph::<EmptyNode, WeightedEdge>::new()
}

#[test]
fn visitor_integration_stops_when_goal_reached() {
    // Simple visitor.
    let goal = 2;
    let visitor = SimpleVisitor::new(GoalReached::new(goal));

    assert!(!visitor.should_stop(0, &()));
    assert!(!visitor.should_stop(1, &()));
    assert!(visitor.should_stop(goal, &()));

    // Weighted visitor.
    let goal = 2;
    let visitor = WeightedVisitor::new(GoalReached::new(goal));

    assert!(!visitor.should_stop(0, &get_graph()));
    assert!(!visitor.should_stop(1, &get_graph()));
    assert!(visitor.should_stop(goal, &get_graph()));
}

#[test]
fn visitor_integration_stops_when_budget_opening_exhausted() {
    // Simple visitor.
    let mut visitor = SimpleVisitor::new(OpeningExhausted::new(2));

    assert!(!visitor.should_stop(0, &()));
    visitor.visit(0, &());

    assert!(!visitor.should_stop(1, &()));
    visitor.visit(1, &());

    assert!(visitor.should_stop(2, &()));

    // Weighted visitor.
    let mut visitor = WeightedVisitor::new(OpeningExhausted::new(2));

    assert!(!visitor.should_stop(0, &get_graph()));
    visitor.visit(0, &get_graph());

    assert!(!visitor.should_stop(1, &get_graph()));
    visitor.visit(1, &get_graph());

    assert!(visitor.should_stop(2, &get_graph()));
}

#[test]
fn visitor_integration_stops_when_goal_reached_or_opening_exhausted() {
    // Simple visitor.
    let goal = 3;
    let policy = Composite::Or(GoalReached::new(goal), OpeningExhausted::new(1));

    let mut visitor = SimpleVisitor::new(policy);

    assert!(!visitor.should_stop(0, &())); // Rejects if not goal and budget respected

    visitor.visit(0, &());

    assert!(visitor.should_stop(0, &())); // Complies for budget exhausted

    assert!(visitor.should_stop(goal, &())); // Complies for goal reached

    // Weighted visitor.
    let goal = 3;
    let policy = Composite::Or(GoalReached::new(goal), OpeningExhausted::new(1));

    let mut visitor = WeightedVisitor::new(policy);

    assert!(!visitor.should_stop(0, &get_graph())); // Rejects if not goal and budget respected

    visitor.visit(0, &get_graph());

    assert!(visitor.should_stop(0, &get_graph())); // Complies for budget exhausted

    assert!(visitor.should_stop(goal, &get_graph())); // Complies for goal reached
}
