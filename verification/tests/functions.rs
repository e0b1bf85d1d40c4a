use stackcore::dfn::{Dfn, Scope};
use stackcore::eval::evaluate_dfn;
use stackcore::fault::{ErrorKind, Fault};
use stackcore::primitive::Primitive;
use stackcore::stack::Stack;
use stackcore::token::Token;
use stackcore::value::Value;

fn name(s: &str) -> Token {
    Token::Name(s.to_string())
}

fn num(n: i64) -> Token {
    Token::Number(n)
}

fn numbers(values: &[i64]) -> Vec<Value> {
    values.iter().map(|n| Value::number(*n)).collect()
}

fn stack_of(values: &[i64]) -> Stack {
    Stack::from_values(numbers(values))
}

#[test]
fn arity_counts_distinct_letters() {
    let body = vec![name("add"), name("a"), name("b")];
    assert_eq!(Dfn::new(body).unwrap().arity(), 2);
    let body = vec![name("a")];
    assert_eq!(Dfn::new(body).unwrap().arity(), 1);
    let body = vec![name("a"), name("b"), name("c"), name("d")];
    assert_eq!(Dfn::new(body).unwrap().arity(), 4);
}

#[test]
fn two_letters_give_arity_two_however_often_they_occur() {
    let body = vec![
        name("add"),
        name("a"),
        name("mul"),
        name("b"),
        name("add"),
        name("a"),
        name("b"),
        name("a"),
    ];
    assert_eq!(Dfn::new(body).unwrap().arity(), 2);
    let body = vec![name("sub"), name("d"), name("b"), name("d"), name("d")];
    assert_eq!(Dfn::new(body).unwrap().arity(), 2);
}

#[test]
fn letters_of_a_nested_body_do_not_count() {
    // a ( add b c )
    let body = vec![
        name("a"),
        Token::Open,
        name("add"),
        name("b"),
        name("c"),
        Token::Close,
    ];
    let dfn = Dfn::new(body).unwrap();
    assert_eq!(dfn.arity(), 1);
    assert_eq!(dfn.body().len(), 6);
}

#[test]
fn a_body_without_letters_has_no_arity() {
    let err = Dfn::new(vec![name("add"), num(1), num(2)]).unwrap_err();
    assert_eq!(err.kind(), ErrorKind::ArityError);
    assert!(matches!(err, Fault::ArityError { letter: None }));
    let err = Dfn::new(Vec::new()).unwrap_err();
    assert!(matches!(err, Fault::ArityError { letter: None }));
}

#[test]
fn a_letter_beyond_d_is_an_arity_error() {
    let err = Dfn::new(vec![name("a"), name("e")]).unwrap_err();
    assert!(matches!(err, Fault::ArityError { letter: Some('e') }));
    let err = Dfn::new(vec![name("z")]).unwrap_err();
    assert!(matches!(err, Fault::ArityError { letter: Some('z') }));
}

#[test]
fn the_first_unsupported_letter_from_the_right_is_reported() {
    let err = Dfn::new(vec![name("x"), name("a"), name("q"), name("d")]).unwrap_err();
    assert!(matches!(err, Fault::ArityError { letter: Some('q') }));
    // An unsupported letter inside a nested body is that body's own.
    let body = vec![name("a"), Token::Open, name("b"), name("e"), Token::Close, name("c")];
    assert_eq!(Dfn::new(body).unwrap().arity(), 2);
}

#[test]
fn a_close_without_open_in_a_body_is_passed_over() {
    let dfn = Dfn::new(vec![name("a"), Token::Close, name("b")]).unwrap();
    assert_eq!(dfn.arity(), 2);
    let mut stack = stack_of(&[1, 2]);
    let err = evaluate_dfn(&dfn, &mut stack).unwrap_err();
    assert_eq!(err.kind(), ErrorKind::UnknownPrimitive);
    assert_eq!(err.position, 1);
    assert_eq!(stack.into_values(), numbers(&[1, 2]));
}

#[test]
fn the_earliest_letter_is_bound_to_the_top() {
    let dfn = Dfn::new(vec![name("c"), name("a"), name("b")]).unwrap();
    let stack = stack_of(&[10, 20, 30]);
    let scope = Scope::bind(&dfn, &stack).unwrap();
    assert_eq!(scope.get('a'), Some(&Value::number(30)));
    assert_eq!(scope.get('b'), Some(&Value::number(20)));
    assert_eq!(scope.get('c'), Some(&Value::number(10)));
    assert_eq!(scope.get('d'), None);
    assert_eq!(scope.get('e'), None);
    assert_eq!(stack.len(), 3);
}

#[test]
fn letters_not_in_use_take_no_value() {
    let dfn = Dfn::new(vec![name("d"), name("b"), name("d")]).unwrap();
    let stack = stack_of(&[10, 20, 30]);
    let scope = Scope::bind(&dfn, &stack).unwrap();
    assert_eq!(scope.get('a'), None);
    assert_eq!(scope.get('b'), Some(&Value::number(30)));
    assert_eq!(scope.get('c'), None);
    assert_eq!(scope.get('d'), Some(&Value::number(20)));
}

#[test]
fn binding_on_a_shallow_stack_is_underflow() {
    let dfn = Dfn::new(vec![name("a"), name("b")]).unwrap();
    let err = Scope::bind(&dfn, &stack_of(&[1])).unwrap_err();
    assert!(matches!(err, Fault::StackUnderflow { needed: 2, available: 1 }));
}

#[test]
fn the_empty_scope_binds_nothing() {
    let scope = Scope::empty();
    for c in ['a', 'b', 'c', 'd', 'e'] {
        assert_eq!(scope.get(c), None);
    }
}

#[test]
fn invocation_replaces_the_arguments_by_the_results() {
    // sub a b: pushes b, then a, then takes the top from the one below.
    let dfn = Dfn::new(vec![name("sub"), name("a"), name("b")]).unwrap();
    let mut stack = stack_of(&[100, 2, 5]);
    let sent = evaluate_dfn(&dfn, &mut stack).unwrap();
    assert!(sent.is_empty());
    // a is 5 (the top), b is 2: the body leaves 2 - 5.
    assert_eq!(stack.into_values(), numbers(&[100, -3]));
}

#[test]
fn a_letter_may_stand_anywhere_and_many_times() {
    // a a b a: leaves four values, in the order of execution.
    let dfn = Dfn::new(vec![name("a"), name("a"), name("b"), name("a")]).unwrap();
    let mut stack = stack_of(&[7, 1, 2]);
    evaluate_dfn(&dfn, &mut stack).unwrap();
    assert_eq!(stack.into_values(), numbers(&[7, 2, 1, 2, 2]));
}

#[test]
fn too_few_values_is_underflow_and_leaves_the_stack() {
    let dfn = Dfn::new(vec![name("add"), name("a"), name("mul"), name("b"), name("c")]).unwrap();
    assert_eq!(dfn.arity(), 3);
    for depth in 0..3 {
        let values: Vec<i64> = (0..depth).collect();
        let mut stack = stack_of(&values);
        let err = evaluate_dfn(&dfn, &mut stack).unwrap_err();
        assert_eq!(err.kind(), ErrorKind::StackUnderflow);
        match err.fault {
            Fault::StackUnderflow { needed, available } => {
                assert_eq!(needed, 3);
                assert_eq!(available, depth as usize);
            }
            other => panic!("unexpected fault {:?}", other),
        }
        assert_eq!(err.primitive, None);
        assert_eq!(err.position, 5);
        assert_eq!(stack.into_values(), numbers(&values));
    }
}

#[test]
fn a_failing_body_leaves_the_stack() {
    // add a 'x': the body fails after a was pushed.
    let dfn = Dfn::new(vec![name("add"), name("a"), Token::Character('x')]).unwrap();
    let mut stack = stack_of(&[1, 2]);
    let err = evaluate_dfn(&dfn, &mut stack).unwrap_err();
    assert_eq!(err.kind(), ErrorKind::TypeMismatch);
    assert_eq!(err.primitive, Some(Primitive::Add));
    assert_eq!(err.position, 0);
    assert_eq!(stack.into_values(), numbers(&[1, 2]));
}

#[test]
fn the_body_sees_nothing_of_the_callers_stack() {
    // add a: inside, only a is there, so add underflows.
    let dfn = Dfn::new(vec![name("add"), name("a")]).unwrap();
    let mut stack = stack_of(&[1, 2]);
    let err = evaluate_dfn(&dfn, &mut stack).unwrap_err();
    assert!(matches!(err.fault, Fault::StackUnderflow { needed: 2, available: 1 }));
    assert_eq!(err.primitive, Some(Primitive::Add));
    assert_eq!(stack.into_values(), numbers(&[1, 2]));
}

#[test]
fn a_nested_body_binds_its_own_letters() {
    // ( neg a ) a b: pushes b, a, then the inner function negates the top.
    let body = vec![
        Token::Open,
        name("neg"),
        name("a"),
        Token::Close,
        name("a"),
        name("b"),
    ];
    let dfn = Dfn::new(body).unwrap();
    assert_eq!(dfn.arity(), 2);
    let mut stack = stack_of(&[3, 4]);
    evaluate_dfn(&dfn, &mut stack).unwrap();
    // outer a = 4, b = 3; inner a is the outer a on top of the inner stack.
    assert_eq!(stack.into_values(), numbers(&[3, -4]));
}

#[test]
fn a_nested_body_does_not_see_outer_letters() {
    // ( add a b ) a: the inner function needs two values, the outer body left one.
    let body = vec![
        Token::Open,
        name("add"),
        name("a"),
        name("b"),
        Token::Close,
        name("a"),
    ];
    let dfn = Dfn::new(body).unwrap();
    assert_eq!(dfn.arity(), 1);
    let mut stack = stack_of(&[1, 2]);
    let err = evaluate_dfn(&dfn, &mut stack).unwrap_err();
    assert!(matches!(err.fault, Fault::StackUnderflow { needed: 2, available: 1 }));
    assert_eq!(err.primitive, None);
    assert_eq!(err.position, 4);
    assert_eq!(stack.into_values(), numbers(&[1, 2]));
}

#[test]
fn debug_inside_a_body_is_returned() {
    let dfn = Dfn::new(vec![name("debug"), name("neg"), name("debug"), name("a")]).unwrap();
    let mut stack = stack_of(&[5]);
    let sent = evaluate_dfn(&dfn, &mut stack).unwrap();
    assert_eq!(sent, numbers(&[5, -5]));
    assert_eq!(stack.into_values(), numbers(&[-5]));
}

#[test]
fn the_same_function_gives_the_same_result_each_time() {
    let dfn = Dfn::new(vec![name("mul"), name("a"), name("a")]).unwrap();
    let mut stack = stack_of(&[3]);
    evaluate_dfn(&dfn, &mut stack).unwrap();
    evaluate_dfn(&dfn, &mut stack).unwrap();
    assert_eq!(dfn.arity(), 1);
    assert_eq!(stack.into_values(), numbers(&[81]));
}

fn same_effect(body: Vec<Token>, combinator: fn(&mut Stack) -> Result<(), Fault>) {
    let dfn = Dfn::new(body).unwrap();
    for depth in 0..4 {
        let values: Vec<i64> = (10..10 + depth).collect();
        let mut by_function = stack_of(&values);
        let mut by_combinator = stack_of(&values);
        let invoked = evaluate_dfn(&dfn, &mut by_function);
        let applied = combinator(&mut by_combinator);
        match (invoked, applied) {
            (Ok(sent), Ok(())) => assert!(sent.is_empty()),
            (Err(e), Err(f)) => {
                assert_eq!(e.kind(), f.kind());
                assert_eq!(e.position, dfn.body().len());
            }
            (invoked, applied) => panic!("{:?} but {:?}", invoked, applied),
        }
        assert_eq!(by_function.into_values(), by_combinator.into_values());
    }
}

#[test]
fn dup_is_the_function_a_a() {
    same_effect(vec![name("a"), name("a")], stackcore::combinator::dup);
}

#[test]
fn flip_is_the_function_b_a() {
    same_effect(vec![name("b"), name("a")], stackcore::combinator::flip);
}

#[test]
fn over_is_the_function_b_a_b() {
    same_effect(vec![name("b"), name("a"), name("b")], stackcore::combinator::over);
}

#[test]
fn a_function_rotates_three_values() {
    // c a b: pushes b, a, c; the third value from the top ends on top.
    let dfn = Dfn::new(vec![name("c"), name("a"), name("b")]).unwrap();
    let mut stack = stack_of(&[0, 1, 2, 3]);
    evaluate_dfn(&dfn, &mut stack).unwrap();
    assert_eq!(stack.into_values(), numbers(&[0, 2, 3, 1]));
}

#[test]
fn tokens_can_be_copied() {
    let body = vec![name("neg"), name("a"), Token::Text(vec!['x']), Token::Open, Token::Close];
    let dfn = Dfn::new(body.clone()).unwrap();
    assert_eq!(dfn.body().len(), body.len());
    assert_eq!(dfn.arity(), 1);
}
