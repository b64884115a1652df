use hodos::policy::Policy;
use hodos::preset::policies::traversal::{GoalReached, NoTermination, OpeningExhausted};
use hodos::preset::visitors::CountVisited;

#[derive(Debug, Default)]
struct VisitorMock {
    visited: usize,
}

impl CountVisited for VisitorMock {
    fn visited_count(&self) -> usize {
        self.visited
    }
}

fn new_visitor(visited: usize) -> VisitorMock {
    VisitorMock { visited }
}

#[test]
fn returns_true_when_goal_reached() {
    let policy = GoalReached::new(42);
    assert!(policy.is_compliant(&42, &()));
}

#[test]
fn returns_false_when_goal_not_reached() {
    let policy = GoalReached::new(42);
    assert!(!policy.is_compliant(&0, &()));
    assert!(!policy.is_compliant(&41, &()));
    assert!(!policy.is_compliant(&43, &()));
}

#[test]
fn always_returns_false() {
    let policy = NoTermination;
    assert!(!policy.is_compliant(&0, &()));
    assert!(!policy.is_compliant(&42, &()));
    assert!(!policy.is_compliant(&999, &()));
}

#[test]
fn returns_false_when_under_budget() {
    let policy = OpeningExhausted { max_opening: 5 };
    assert!(!policy.is_compliant(&0, &new_visitor(4)));
}

#[test]
fn returns_true_when_at_budget() {
    let policy = OpeningExhausted { max_opening: 3 };
    assert!(policy.is_compliant(&0, &new_visitor(3)));
}

#[test]
fn returns_true_when_over_budget() {
    let policy = OpeningExhausted { max_opening: 2 };
    assert!(policy.is_compliant(&0, &new_visitor(3)));
}

#[test]
fn returns_false_when_empty_and_budget_positive() {
    let policy = OpeningExhausted { max_opening: 1 };
    assert!(!policy.is_compliant(&0, &new_visitor(0)));
}
