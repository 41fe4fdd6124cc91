use stack_vm::composite_stack::{CompositeStack, StackValue};
use stack_vm::composite_stack::StackValue::Integer;
use stack_vm::stack::{FrameStack, Stack, StackComponent, StackError};

#[test]
fn test_composite_byte_stack_basic() {
    let mut stack = CompositeStack::new(10);

    for i in 1..=10 {
        assert_eq!(stack.push(Integer(i)), Ok(()));
    }

    for i in (1..=10).rev() {
        assert_eq!(stack.pop(), Ok(Integer(i)));
    }
}

#[test]
fn test_composite_byte_stack_underflow() {
    let mut stack = CompositeStack::new(5);

    assert_eq!(stack.push(Integer(10)), Ok(()));
    assert_eq!(stack.pop().unwrap(), Integer(10));
    assert_eq!(stack.pop(), Err(StackError::StackUnderFlow));
}

#[test]
fn test_composite_byte_stack_overflow() {
    let mut stack = CompositeStack::new(2);

    assert_eq!(stack.push(Integer(10)), Ok(()));
    assert_eq!(stack.push(Integer(10)), Ok(()));
    assert_eq!(stack.push(Integer(10)), Err(StackError::StackOverFlow));
}

#[test]
fn test_composite_byte_stack_pop_n() {
    let mut stack = CompositeStack::new(10);

    for i in 1..=10 {
        assert_eq!(stack.push(Integer(i)), Ok(()));
    }

    let popped = stack.pop_n(3, true);
    assert_eq!(popped, Ok(vec![Integer(10), Integer(9), Integer(8)]));
    assert_eq!(stack.pop(), Ok(Integer(7)));

    let mut stack_failure = CompositeStack::new(10);
    stack_failure.push(Integer(10)).unwrap();

    let popped_failure = stack_failure.pop_n(3, true);
    assert_eq!(popped_failure, Err(StackError::StackUnderFlow));
}

#[test]
fn test_fill_to_capacity_then_overflow() {
    // For any capacity, filling the stack succeeds and one push more fails.
    for cap in 1..=6usize {
        let mut stack: StackComponent<u8> = StackComponent::new(cap);
        for b in 0..cap {
            assert_eq!(stack.push(b as u8), Ok(()));
        }
        assert_eq!(stack.push(0xFF), Err(StackError::StackOverFlow));
        // The failed push changed nothing: every value is still there.
        for b in (0..cap).rev() {
            assert_eq!(stack.pop(), Ok(b as u8));
        }
        assert_eq!(stack.pop(), Err(StackError::StackUnderFlow));
    }
}

#[test]
fn test_pop_n_round_trip() {
    // Popping the top three in stack order and re-pushing them in order
    // restores the original contents.
    let mut stack: StackComponent<i32> = StackComponent::new(8);
    for i in 1..=5 {
        stack.push(i).unwrap();
    }
    let group = stack.pop_n(3, false).unwrap();
    assert_eq!(group, vec![3, 4, 5]);
    for v in group {
        stack.push(v).unwrap();
    }
    for i in (1..=5).rev() {
        assert_eq!(stack.pop(), Ok(i));
    }
}

#[test]
fn test_pop_n_zero_and_all() {
    let mut stack: StackComponent<i32> = StackComponent::new(4);
    stack.push(1).unwrap();
    stack.push(2).unwrap();
    assert_eq!(stack.pop_n(0, false), Ok(vec![]));
    assert_eq!(stack.pop_n(2, false), Ok(vec![1, 2]));
    assert_eq!(stack.pop(), Err(StackError::StackUnderFlow));
}

#[test]
fn test_pop_n_underflow_leaves_stack_unchanged() {
    // The bulk pop is all-or-nothing: after an underflow every value is
    // still in place.
    let mut stack: StackComponent<i32> = StackComponent::new(4);
    stack.push(7).unwrap();
    stack.push(8).unwrap();
    assert_eq!(stack.pop_n(3, false), Err(StackError::StackUnderFlow));
    assert_eq!(stack.pop(), Ok(8));
    assert_eq!(stack.pop(), Ok(7));
}

#[test]
fn test_frame_stack_mirrors_primary() {
    let mut stack: StackComponent<u8> = StackComponent::new(2);
    assert_eq!(stack.push_frame(vec![1, 2]), Ok(()));
    assert_eq!(stack.push_frame(vec![3]), Ok(()));
    assert_eq!(stack.push_frame(vec![4]), Err(StackError::StackOverFlow));
    assert_eq!(stack.pop_frame(), Ok(vec![3]));
    assert_eq!(stack.pop_frame(), Ok(vec![1, 2]));
    assert_eq!(stack.pop_frame(), Err(StackError::StackUnderFlow));
}

#[test]
fn test_frame_stack_pop_n() {
    let mut stack: StackComponent<u8> = StackComponent::new(4);
    stack.push_frame(vec![1]).unwrap();
    stack.push_frame(vec![2]).unwrap();
    stack.push_frame(vec![3]).unwrap();
    assert_eq!(stack.pop_n_frame(2, true), Ok(vec![vec![3], vec![2]]));
    assert_eq!(stack.pop_n_frame(2, false), Err(StackError::StackUnderFlow));
    assert_eq!(stack.pop_n_frame(1, false), Ok(vec![vec![1]]));
}

#[test]
fn test_frame_capacity_independent_of_values() {
    // The primary and frame sequences fill up independently.
    let mut stack: StackComponent<u8> = StackComponent::new(1);
    assert_eq!(stack.push(9), Ok(()));
    assert_eq!(stack.push_frame(vec![1]), Ok(()));
    assert_eq!(stack.push(10), Err(StackError::StackOverFlow));
    assert_eq!(stack.push_frame(vec![2]), Err(StackError::StackOverFlow));
    assert_eq!(stack.pop(), Ok(9));
    assert_eq!(stack.pop_frame(), Ok(vec![1]));
}

#[test]
fn test_byte_array_values_on_stack() {
    let mut stack = CompositeStack::new(3);
    stack.push(StackValue::ByteArray(vec![0xAA, 0xBB])).unwrap();
    stack.push(StackValue::Bool(true)).unwrap();
    assert_eq!(stack.pop(), Ok(StackValue::Bool(true)));
    assert_eq!(stack.pop(), Ok(StackValue::ByteArray(vec![0xAA, 0xBB])));
}
