use stackcore::combinator::{dup, flip, over};
use stackcore::fault::{ErrorKind, Fault};
use stackcore::stack::Stack;
use stackcore::value::Value;

fn stack_of(numbers: &[i64]) -> Stack {
    Stack::from_values(numbers.iter().map(|n| Value::number(*n)).collect())
}

fn numbers(values: &[i64]) -> Vec<Value> {
    values.iter().map(|n| Value::number(*n)).collect()
}

#[test]
fn new_stack_is_empty() {
    let s = Stack::new();
    assert!(s.is_empty());
    assert_eq!(s.len(), 0);
    assert_eq!(s.into_values(), Vec::<Value>::new());
}

#[test]
fn push_then_pop_is_last_in_first_out() {
    let mut s = Stack::new();
    s.push(Value::number(1));
    s.push(Value::character('x'));
    s.push(Value::number(3));
    assert_eq!(s.len(), 3);
    assert_eq!(s.pop().unwrap(), Value::number(3));
    assert_eq!(s.pop().unwrap(), Value::character('x'));
    assert_eq!(s.pop().unwrap(), Value::number(1));
    assert!(s.is_empty());
}

#[test]
fn pop_on_empty_stack_is_underflow() {
    let mut s = Stack::new();
    let err = s.pop().unwrap_err();
    assert_eq!(err.kind(), ErrorKind::StackUnderflow);
    assert!(matches!(err, Fault::StackUnderflow { needed: 1, available: 0 }));
    assert!(s.is_empty());
}

#[test]
fn peek_copies_the_top_values_deepest_first() {
    let s = stack_of(&[1, 2, 3, 4]);
    assert_eq!(s.peek(0).unwrap(), Vec::<Value>::new());
    assert_eq!(s.peek(2).unwrap(), numbers(&[3, 4]));
    assert_eq!(s.peek(4).unwrap(), numbers(&[1, 2, 3, 4]));
    assert_eq!(s.len(), 4);
    assert_eq!(s.into_values(), numbers(&[1, 2, 3, 4]));
}

#[test]
fn peek_beyond_the_depth_is_underflow() {
    let s = stack_of(&[1, 2]);
    let err = s.peek(3).unwrap_err();
    assert!(matches!(err, Fault::StackUnderflow { needed: 3, available: 2 }));
    assert_eq!(s.len(), 2);
}

#[test]
fn top_looks_below_the_top() {
    let s = stack_of(&[10, 20, 30]);
    assert_eq!(s.top(0), Some(&Value::number(30)));
    assert_eq!(s.top(2), Some(&Value::number(10)));
    assert_eq!(s.top(3), None);
    assert_eq!(Stack::new().top(0), None);
}

#[test]
fn discard_removes_from_the_top() {
    let mut s = stack_of(&[1, 2, 3]);
    s.discard(0).unwrap();
    assert_eq!(s.len(), 3);
    s.discard(2).unwrap();
    assert_eq!(s.peek(1).unwrap(), numbers(&[1]));
    let err = s.discard(2).unwrap_err();
    assert!(matches!(err, Fault::StackUnderflow { needed: 2, available: 1 }));
    assert_eq!(s.into_values(), numbers(&[1]));
}

#[test]
fn extend_keeps_the_order() {
    let mut s = stack_of(&[1]);
    s.extend(numbers(&[2, 3]));
    s.extend(Vec::new());
    assert_eq!(s.into_values(), numbers(&[1, 2, 3]));
}

#[test]
fn dup_then_two_pops_give_the_value_twice() {
    let a = Value::numbers(&vec![5, 6]);
    let mut s = stack_of(&[9]);
    s.push(a.clone());
    let before = s.len();
    dup(&mut s).unwrap();
    assert_eq!(s.len(), before + 1);
    let first = s.pop().unwrap();
    let second = s.pop().unwrap();
    assert_eq!(first, a);
    assert_eq!(second, a);
    assert_eq!(first.kind(), a.kind());
    assert_eq!(first.shape(), a.shape());
    assert_eq!(first.cells(), a.cells());
    assert_eq!(s.len(), before - 1);
    assert_eq!(s.into_values(), numbers(&[9]));
}

#[test]
fn flip_twice_restores_the_stack() {
    let mut s = Stack::new();
    s.push(Value::number(1));
    s.push(Value::character('a'));
    s.push(Value::numbers(&vec![7, 8]));
    flip(&mut s).unwrap();
    assert_eq!(
        s.peek(3).unwrap(),
        vec![Value::number(1), Value::numbers(&vec![7, 8]), Value::character('a')]
    );
    flip(&mut s).unwrap();
    assert_eq!(
        s.into_values(),
        vec![Value::number(1), Value::character('a'), Value::numbers(&vec![7, 8])]
    );
}

#[test]
fn over_copies_the_second_value_to_the_top() {
    let mut s = Stack::new();
    s.push(Value::character('a'));
    s.push(Value::number(2));
    over(&mut s).unwrap();
    assert_eq!(s.len(), 3);
    assert_eq!(
        s.into_values(),
        vec![Value::character('a'), Value::number(2), Value::character('a')]
    );
}

#[test]
fn dup_then_over_on_three_four() {
    let mut s = stack_of(&[3, 4]);
    dup(&mut s).unwrap();
    assert_eq!(s.peek(3).unwrap(), numbers(&[3, 4, 4]));
    over(&mut s).unwrap();
    assert_eq!(s.into_values(), numbers(&[3, 4, 4, 4]));
}

#[test]
fn combinators_underflow_without_touching_the_stack() {
    let mut empty = Stack::new();
    assert!(matches!(
        dup(&mut empty).unwrap_err(),
        Fault::StackUnderflow { needed: 1, available: 0 }
    ));
    assert!(matches!(
        over(&mut empty).unwrap_err(),
        Fault::StackUnderflow { needed: 2, available: 0 }
    ));
    assert!(matches!(
        flip(&mut empty).unwrap_err(),
        Fault::StackUnderflow { needed: 2, available: 0 }
    ));
    assert!(empty.is_empty());
    let mut one = stack_of(&[1]);
    assert!(matches!(
        over(&mut one).unwrap_err(),
        Fault::StackUnderflow { needed: 2, available: 1 }
    ));
    assert!(matches!(
        flip(&mut one).unwrap_err(),
        Fault::StackUnderflow { needed: 2, available: 1 }
    ));
    assert_eq!(one.into_values(), numbers(&[1]));
}
