use hodos::frontier::max_heap::MaxHeapItem;
use hodos::frontier::min_heap::MinHeapItem;
use hodos::frontier::{Frontier, MaxHeap, MinHeap, Queue, Stack};

#[test]
fn test_queue_new_should_be_empty() {
    let queue = Queue::new();
    assert!(queue.is_empty());
}

#[test]
fn test_queue_push_should_add_value_id() {
    let mut queue = Queue::new();

    assert!(queue.push(0, None));
    assert!(!queue.is_empty());
    assert_eq!(queue.pop(), Some(0));
}

#[test]
fn test_queue_pop_should_follow_insertion_order() {
    let mut queue = Queue::new();

    assert!(queue.push(0, None));
    assert!(queue.push(1, None));

    assert!(!queue.is_empty());

    assert_eq!(queue.pop(), Some(0));
    assert_eq!(queue.pop(), Some(1));
}

#[test]
fn test_queue_pop_should_empty_the_queue_if_it_contains_a_single_element() {
    let mut queue = Queue::new();

    assert!(queue.push(0, None));
    assert!(!queue.is_empty());

    assert_eq!(queue.pop(), Some(0));
    assert!(queue.is_empty());
}

#[test]
fn test_queue_push_shoud_not_allow_no_duplicates() {
    let mut queue = Queue::new();

    assert!(queue.push(42, None));
    assert!(!queue.push(42, None));
}

#[test]
fn test_stack_new_should_be_empty() {
    let stack = Stack::new();
    assert!(stack.is_empty());
}

#[test]
fn test_stack_push_should_add_value_id() {
    let mut stack = Stack::new();

    assert!(stack.push(0, None));
    assert!(!stack.is_empty());
    assert_eq!(stack.pop(), Some(0));
}

#[test]
fn test_stack_pop_should_reverse_insertion_order() {
    let mut stack = Stack::new();

    assert!(stack.push(0, None));
    assert!(stack.push(1, None));

    assert!(!stack.is_empty());

    assert_eq!(stack.pop(), Some(1));
    assert_eq!(stack.pop(), Some(0));
}

#[test]
fn test_stack_pop_should_empty_the_stack_if_it_contains_a_single_element() {
    let mut stack = Stack::new();

    assert!(stack.push(0, None));
    assert!(!stack.is_empty());

    assert_eq!(stack.pop(), Some(0));
    assert!(stack.is_empty());
}

#[test]
fn test_stack_push_shoud_not_allow_no_duplicates() {
    let mut stack = Stack::new();

    assert!(stack.push(42, None));
    assert!(!stack.push(42, None));
}

#[test]
fn max_heap_test_min_heap_new_should_be_empty() {
    let min_heap = MaxHeap::new();
    assert!(min_heap.is_empty());
}

#[test]
fn max_heap_test_min_heap_push_should_add_value_id() {
    let mut min_heap = MaxHeap::new();
    let id = 0;

    min_heap.push(id, Some(1));
    assert!(!min_heap.is_empty());
    assert_eq!(min_heap.pop(), Some(id));
}

#[test]
fn max_heap_test_min_heap_pop_should_follow_min_cost_order() {
    let mut min_heap = MaxHeap::new();
    let id0 = 0;
    let id1 = 1;

    min_heap.push(id0, Some(1));
    min_heap.push(id1, Some(2));

    assert!(!min_heap.is_empty());

    assert_eq!(min_heap.pop(), Some(id1));
    assert_eq!(min_heap.pop(), Some(id0));

    assert!(min_heap.is_empty());

    min_heap.push(id0, Some(2));
    min_heap.push(id1, Some(1));

    assert!(!min_heap.is_empty());

    assert_eq!(min_heap.pop(), Some(id0));
    assert_eq!(min_heap.pop(), Some(id1));
}

#[test]
fn max_heap_test_min_heap_pop_should_empty_the_min_heap_if_it_contains_a_single_element() {
    let mut min_heap = MaxHeap::new();
    let id = 0;

    min_heap.push(id, Some(0));
    assert!(!min_heap.is_empty());

    assert_eq!(min_heap.pop(), Some(id));
    assert!(min_heap.is_empty());
}

#[test]
fn min_heap_test_min_heap_new_should_be_empty() {
    let min_heap = MinHeap::new();
    assert!(min_heap.is_empty());
}

#[test]
fn min_heap_test_min_heap_push_should_add_value_id() {
    let mut min_heap = MinHeap::new();

    assert!(min_heap.push(0, Some(1)));
    assert!(!min_heap.is_empty());
    assert_eq!(min_heap.pop(), Some(0));
}

#[test]
fn min_heap_test_min_heap_pop_should_follow_min_cost_order() {
    let mut min_heap = MinHeap::new();

    assert!(min_heap.push(0, Some(1)));
    assert!(min_heap.push(1, Some(2)));

    assert!(!min_heap.is_empty());

    assert_eq!(min_heap.pop(), Some(0));
    assert_eq!(min_heap.pop(), Some(1));

    assert!(min_heap.is_empty());

    assert!(min_heap.push(0, Some(2)));
    assert!(min_heap.push(1, Some(1)));

    assert!(!min_heap.is_empty());

    assert_eq!(min_heap.pop(), Some(1));
    assert_eq!(min_heap.pop(), Some(0));
}

#[test]
fn min_heap_test_min_heap_pop_should_empty_the_min_heap_if_it_contains_a_single_element() {
    let mut min_heap = MinHeap::new();

    assert!(min_heap.push(0, Some(0)));
    assert!(!min_heap.is_empty());

    assert_eq!(min_heap.pop(), Some(0));
    assert!(min_heap.is_empty());
}

#[test]
fn test_min_heap_push_shoud_allow_no_duplicates_with_different_weight() {
    let mut min_heap = MinHeap::new();

    assert!(min_heap.push(42, Some(0)));
    assert!(min_heap.push(42, Some(1)));
}

#[test]
fn queue_pops_three_pushed_ids_in_order_and_stack_in_reverse() {
    let (a, b, c) = (7, 3, 9);

    let mut queue = Queue::new();
    assert!(queue.push(a, None));
    assert!(queue.push(b, None));
    assert!(queue.push(c, None));
    assert_eq!(queue.pop(), Some(a));
    assert_eq!(queue.pop(), Some(b));
    assert_eq!(queue.pop(), Some(c));
    assert_eq!(queue.pop(), None);
    assert!(queue.is_empty());

    let mut stack = Stack::new();
    assert!(stack.push(a, None));
    assert!(stack.push(b, None));
    assert!(stack.push(c, None));
    assert_eq!(stack.pop(), Some(c));
    assert_eq!(stack.pop(), Some(b));
    assert_eq!(stack.pop(), Some(a));
    assert_eq!(stack.pop(), None);
    assert!(stack.is_empty());
}

#[test]
fn queue_and_stack_refuse_an_id_that_has_left_again() {
    let mut queue = Queue::new();
    assert!(queue.push(1, None));
    assert_eq!(queue.pop(), Some(1));
    assert!(!queue.push(1, Some(5)));
    assert!(queue.is_empty());

    let mut stack = Stack::new();
    assert!(stack.push(1, None));
    assert_eq!(stack.pop(), Some(1));
    assert!(!stack.push(1, Some(5)));
    assert!(stack.is_empty());
}

#[test]
fn queue_and_stack_ignore_costs() {
    let mut queue = Queue::new();
    queue.push(1, Some(10));
    queue.push(2, Some(1));
    assert_eq!(queue.pop(), Some(1));
    assert_eq!(queue.pop(), Some(2));

    let mut stack = Stack::new();
    stack.push(1, Some(1));
    stack.push(2, Some(10));
    assert_eq!(stack.pop(), Some(2));
    assert_eq!(stack.pop(), Some(1));
}

#[test]
fn min_heap_always_pops_a_least_remaining_cost() {
    let costs: Vec<i64> = vec![5, -2, 9, 0, 7, -2, 3, i64::MIN, i64::MAX, 5];
    let mut heap = MinHeap::new();
    for (id, cost) in costs.iter().enumerate() {
        assert!(heap.push(id as u32, Some(*cost)));
    }
    let mut left = costs.clone();
    let mut popped = Vec::new();
    while !heap.is_empty() {
        let id = heap.pop().unwrap();
        let cost = costs[id as usize];
        assert_eq!(cost, *left.iter().min().unwrap());
        let at = left.iter().position(|c| *c == cost).unwrap();
        left.remove(at);
        popped.push(id);
    }
    assert_eq!(popped, vec![7, 1, 5, 3, 6, 0, 9, 4, 2, 8]);
    assert_eq!(heap.pop(), None);
}

#[test]
fn max_heap_always_pops_a_greatest_remaining_cost() {
    let costs: Vec<i64> = vec![5, -2, 9, 0, 7, -2, 3, i64::MIN, i64::MAX, 5];
    let mut heap = MaxHeap::new();
    for (id, cost) in costs.iter().enumerate() {
        heap.push(id as u32, Some(*cost));
    }
    let mut popped = Vec::new();
    while !heap.is_empty() {
        popped.push(heap.pop().unwrap());
    }
    assert_eq!(popped, vec![8, 2, 4, 0, 9, 6, 3, 1, 5, 7]);
    assert_eq!(heap.pop(), None);
}

#[test]
fn heaps_take_a_push_without_cost_at_cost_zero() {
    let mut heap = MinHeap::new();
    heap.push(1, Some(1));
    heap.push(2, None);
    heap.push(3, Some(-1));
    assert_eq!(heap.pop(), Some(3));
    assert_eq!(heap.pop(), Some(2));
    assert_eq!(heap.pop(), Some(1));

    let mut heap = MaxHeap::new();
    heap.push(1, Some(1));
    heap.push(2, None);
    heap.push(3, Some(-1));
    assert_eq!(heap.pop(), Some(1));
    assert_eq!(heap.pop(), Some(2));
    assert_eq!(heap.pop(), Some(3));
}

#[test]
fn heap_entries_compare_by_cost_alone() {
    assert!(MinHeapItem(1, 0) == MinHeapItem(1, 5));
    assert!(MinHeapItem(1, 0) != MinHeapItem(2, 0));
    assert!(MinHeapItem(1, 0) > MinHeapItem(2, 1));
    assert!(MinHeapItem(3, 0) < MinHeapItem(2, 1));
    assert!(MinHeapItem(-1, 7) >= MinHeapItem(-1, 8));

    assert!(MaxHeapItem(1, 0) == MaxHeapItem(1, 5));
    assert!(MaxHeapItem(1, 0) != MaxHeapItem(2, 0));
    assert!(MaxHeapItem(1, 0) < MaxHeapItem(2, 1));
    assert!(MaxHeapItem(3, 0) > MaxHeapItem(2, 1));
    assert!(MaxHeapItem(-1, 7) <= MaxHeapItem(-1, 8));
}
