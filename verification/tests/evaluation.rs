use stackcore::eval::{evaluate, Evaluator, Phase};
use stackcore::fault::{ErrorKind, Fault};
use stackcore::primitive::Primitive;
use stackcore::stack::Stack;
use stackcore::token::Token;
use stackcore::value::Value;

fn name(s: &str) -> Token {
    Token::Name(s.to_string())
}

fn num(n: i64) -> Token {
    Token::Number(n)
}

fn numbers(values: &[i64]) -> Vec<Value> {
    values.iter().map(|n| Value::number(*n)).collect()
}

#[test]
fn the_empty_expression_leaves_an_empty_stack() {
    assert_eq!(evaluate(&Vec::new()).unwrap(), Vec::<Value>::new());
}

#[test]
fn literals_are_pushed_from_the_right() {
    let tokens = vec![num(1), Token::Character('c'), Token::Text(vec!['h', 'i']), num(4)];
    assert_eq!(
        evaluate(&tokens).unwrap(),
        vec![
            Value::number(4),
            Value::text(&vec!['h', 'i']),
            Value::character('c'),
            Value::number(1)
        ]
    );
}

#[test]
fn operations_run_right_to_left() {
    // sub 2 5: 5 is pushed first, then 2; the top is taken from the one below.
    assert_eq!(evaluate(&vec![name("sub"), num(2), num(5)]).unwrap(), numbers(&[3]));
    // neg add 1 mul 2 3
    let tokens = vec![name("neg"), name("add"), num(1), name("mul"), num(2), num(3)];
    assert_eq!(evaluate(&tokens).unwrap(), numbers(&[-7]));
}

#[test]
fn combinators_in_an_expression() {
    // over dup 4 3: dup runs first, then over.
    let tokens = vec![name("over"), name("dup"), num(4), num(3)];
    assert_eq!(evaluate(&tokens).unwrap(), numbers(&[3, 4, 4, 4]));
    // flip 1 2: 2 is pushed first, then 1; flip puts 2 back on top.
    let tokens = vec![name("flip"), num(1), num(2)];
    assert_eq!(evaluate(&tokens).unwrap(), numbers(&[1, 2]));
}

#[test]
fn an_evaluator_starts_from_a_given_stack() {
    let mut ev = Evaluator::with_stack(Stack::from_values(numbers(&[3, 4])));
    assert_eq!(ev.phase(), Phase::Ready);
    let phase = ev.evaluate(&vec![name("over"), name("dup")]);
    assert_eq!(phase, Phase::Ready);
    assert_eq!(ev.phase(), Phase::Ready);
    assert!(ev.failure().is_none());
    assert_eq!(ev.stack().peek(4).unwrap(), numbers(&[3, 4, 4, 4]));
    assert_eq!(ev.stack().len(), 4);
}

#[test]
fn an_evaluator_keeps_its_stack_between_expressions() {
    let mut ev = Evaluator::new();
    assert_eq!(ev.evaluate(&vec![num(2), num(5)]), Phase::Ready);
    assert_eq!(ev.evaluate(&vec![name("sub")]), Phase::Ready);
    assert_eq!(ev.stack().peek(1).unwrap(), numbers(&[3]));
    assert_eq!(ev.stack().len(), 1);
    assert_eq!(ev.into_stack().into_values(), numbers(&[3]));
}

#[test]
fn an_inline_function_in_an_expression() {
    // ( sub a b ) 5 2 100: a is the top, 5.
    let tokens = vec![
        Token::Open,
        name("sub"),
        name("a"),
        name("b"),
        Token::Close,
        num(5),
        num(2),
        num(100),
    ];
    assert_eq!(evaluate(&tokens).unwrap(), numbers(&[100, -3]));
}

#[test]
fn a_function_of_three_arguments_reorders_them() {
    // ( b c a ) 1 2 3: a = 1, b = 2, c = 3; pushes a, then c, then b.
    let tokens = vec![
        Token::Open,
        name("b"),
        name("c"),
        name("a"),
        Token::Close,
        num(1),
        num(2),
        num(3),
    ];
    assert_eq!(evaluate(&tokens).unwrap(), numbers(&[1, 3, 2]));
}

#[test]
fn functions_next_to_each_other() {
    // ( neg a ) ( add a a ) 4
    let tokens = vec![
        Token::Open,
        name("neg"),
        name("a"),
        Token::Close,
        Token::Open,
        name("add"),
        name("a"),
        name("a"),
        Token::Close,
        num(4),
    ];
    assert_eq!(evaluate(&tokens).unwrap(), numbers(&[-8]));
}

#[test]
fn an_unknown_name_fails_at_its_position() {
    let err = evaluate(&vec![num(1), name("rotate"), num(2)]).unwrap_err();
    assert_eq!(err.kind(), ErrorKind::UnknownPrimitive);
    assert!(matches!(err.fault, Fault::UnknownPrimitive));
    assert_eq!(err.primitive, None);
    assert_eq!(err.position, 1);
    assert!(err.message().starts_with("unknown primitive"));
}

#[test]
fn a_delimiter_without_partner_is_an_unknown_primitive() {
    let err = evaluate(&vec![num(1), Token::Close, num(2)]).unwrap_err();
    assert_eq!(err.kind(), ErrorKind::UnknownPrimitive);
    assert_eq!(err.position, 1);
    let err = evaluate(&vec![Token::Open, name("neg"), num(2)]).unwrap_err();
    assert_eq!(err.kind(), ErrorKind::UnknownPrimitive);
    assert_eq!(err.primitive, None);
    assert_eq!(err.position, 0);
}

#[test]
fn a_letter_outside_a_function_is_an_arity_error() {
    let err = evaluate(&vec![name("add"), name("a"), num(2)]).unwrap_err();
    assert_eq!(err.kind(), ErrorKind::ArityError);
    assert!(matches!(err.fault, Fault::ArityError { letter: Some('a') }));
    assert_eq!(err.position, 1);
}

#[test]
fn a_function_without_letters_is_an_arity_error() {
    let tokens = vec![Token::Open, name("add"), num(1), num(2), Token::Close];
    let err = evaluate(&tokens).unwrap_err();
    assert!(matches!(err.fault, Fault::ArityError { letter: None }));
    assert_eq!(err.primitive, None);
    assert_eq!(err.position, 4);
    let err = evaluate(&vec![Token::Open, Token::Close]).unwrap_err();
    assert!(matches!(err.fault, Fault::ArityError { letter: None }));
    assert_eq!(err.position, 1);
}

#[test]
fn a_function_with_a_fifth_letter_is_an_arity_error() {
    let tokens = vec![Token::Open, name("a"), name("e"), Token::Close, num(1), num(2)];
    let err = evaluate(&tokens).unwrap_err();
    assert!(matches!(err.fault, Fault::ArityError { letter: Some('e') }));
    assert_eq!(err.position, 3);
}

#[test]
fn a_primitive_failure_names_the_primitive() {
    let err = evaluate(&vec![name("add"), num(1), Token::Character('x')]).unwrap_err();
    assert_eq!(err.kind(), ErrorKind::TypeMismatch);
    assert_eq!(err.primitive, Some(Primitive::Add));
    assert_eq!(err.position, 0);
    let err = evaluate(&vec![num(9), name("flip"), num(1)]).unwrap_err();
    assert!(matches!(err.fault, Fault::StackUnderflow { needed: 2, available: 1 }));
    assert_eq!(err.primitive, Some(Primitive::Flip));
    assert_eq!(err.position, 1);
}

#[test]
fn shape_mismatch_in_an_expression() {
    let mut ev = Evaluator::with_stack(Stack::from_values(vec![
        Value::numbers(&vec![1, 2, 3]),
        Value::numbers(&vec![1, 2]),
    ]));
    assert_eq!(ev.evaluate(&vec![name("mul")]), Phase::Failed);
    let err = ev.failure().unwrap();
    assert_eq!(err.kind(), ErrorKind::ShapeMismatch);
    assert_eq!(err.primitive, Some(Primitive::Mul));
    match &err.fault {
        Fault::ShapeMismatch { expected_shape, actual_shape } => {
            assert_eq!(expected_shape, &vec![3]);
            assert_eq!(actual_shape, &vec![2]);
        }
        other => panic!("unexpected fault {:?}", other),
    }
}

#[test]
fn the_first_failure_from_the_right_ends_the_evaluation() {
    // The unknown name at 0 is never reached: flip at 2 fails first.
    let err = evaluate(&vec![name("nonsense"), num(1), name("flip"), num(2)]).unwrap_err();
    assert_eq!(err.kind(), ErrorKind::StackUnderflow);
    assert_eq!(err.position, 2);
}

#[test]
fn a_failed_evaluator_keeps_no_partial_result() {
    let mut ev = Evaluator::new();
    let phase = ev.evaluate(&vec![name("add"), name("debug"), num(1)]);
    assert_eq!(phase, Phase::Failed);
    assert_eq!(ev.phase(), Phase::Failed);
    assert!(ev.stack().is_empty());
    assert!(ev.emitted().is_empty());
    let err = ev.failure().unwrap();
    assert_eq!(err.kind(), ErrorKind::StackUnderflow);
    assert_eq!(err.primitive, Some(Primitive::Add));
    assert_eq!(err.position, 0);
}

#[test]
fn a_failed_evaluator_does_no_further_work() {
    let mut ev = Evaluator::new();
    assert_eq!(ev.evaluate(&vec![name("dup")]), Phase::Failed);
    assert_eq!(ev.evaluate(&vec![num(1)]), Phase::Failed);
    assert!(ev.stack().is_empty());
    let err = ev.failure().unwrap().clone();
    assert_eq!(err.kind(), ErrorKind::StackUnderflow);
    assert_eq!(err.position, 0);
}

#[test]
fn debug_sends_values_to_the_sink_in_order() {
    let mut ev = Evaluator::new();
    let tokens = vec![
        name("debug"),
        Token::Open,
        name("debug"),
        name("neg"),
        name("a"),
        Token::Close,
        name("debug"),
        num(6),
    ];
    assert_eq!(ev.evaluate(&tokens), Phase::Ready);
    assert_eq!(ev.emitted(), &numbers(&[6, -6, -6]));
    assert_eq!(ev.stack().peek(1).unwrap(), numbers(&[-6]));
}

#[test]
fn deep_nesting_is_evaluated() {
    let mut tokens = Vec::new();
    for _ in 0..50 {
        tokens.push(Token::Open);
        tokens.push(name("neg"));
    }
    tokens.push(name("a"));
    for _ in 0..50 {
        tokens.push(Token::Close);
    }
    tokens.push(num(7));
    // Only the innermost body refers to a letter; each body around it has none.
    let err = evaluate(&tokens).unwrap_err();
    assert_eq!(err.kind(), ErrorKind::ArityError);
    let mut tokens = Vec::new();
    for _ in 0..50 {
        tokens.push(Token::Open);
        tokens.push(name("neg"));
        tokens.push(name("a"));
    }
    for _ in 0..50 {
        tokens.push(name("pad"));
        tokens.push(Token::Close);
    }
    let err = evaluate(&tokens).unwrap_err();
    assert_eq!(err.kind(), ErrorKind::StackUnderflow);
}
