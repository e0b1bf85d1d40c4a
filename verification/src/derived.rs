//! The combinators as inline functions: each of the three does what a short
//! body of argument letters does, so an inline function reaches no less than
//! they do, and is the way to reorder three values or more.

use vstd::prelude::*;
use crate::combinator::{dup_spec, flip_spec, over_spec};
use crate::dfn::{bind, bound, infer_arity};
use crate::eval::{failure, invoke, run};
use crate::fault::{EvalErrorView, FaultView};
use crate::group::{argument_letters, count_used, first_excess, usage};
use crate::primitive::Machine;
use crate::token::{letter_of, Token};
use crate::value::ValueView;

verus! {

/// Whether a token is the name that consists of the one character `c`.
pub open spec fn names_letter(t: Token, c: char) -> bool {
    t matches Token::Name(n) && n@ == seq![c]
}

/// A stack result as the result of an invocation that ends at `hi` and
/// leaves the sink alone.
pub open spec fn as_invocation(
    r: Result<Seq<ValueView>, FaultView>,
    sink: Seq<ValueView>,
    hi: int,
) -> Result<Machine, EvalErrorView> {
    match r {
        Ok(stack) => Ok(Machine { stack, sink }),
        Err(f) => Err(failure(f, hi)),
    }
}

/// The letters `a` and `b`, in any number and order, are the letters in
/// use of a body exactly where they occur in it.
proof fn lemma_usage_of_a_and_b(letters: Seq<char>)
    requires
        forall|i: int| 0 <= i < letters.len() ==> letters[i] == 'a' || letters[i] == 'b',
    ensures
        first_excess(letters, 0) is None,
        usage(letters) == seq![letters.contains('a'), letters.contains('b'), false, false],
{
    crate::dfn::lemma_no_excess(letters, 0);
    let used = usage(letters);
    assert(letter_of(0) == 'a' && letter_of(1) == 'b' && letter_of(2) == 'c' && letter_of(3)
        == 'd');
    if letters.contains('c') {
        let i = choose|i: int| 0 <= i < letters.len() && letters[i] == 'c';
        assert(letters[i] == 'a' || letters[i] == 'b');
    }
    if letters.contains('d') {
        let i = choose|i: int| 0 <= i < letters.len() && letters[i] == 'd';
        assert(letters[i] == 'a' || letters[i] == 'b');
    }
    assert(used =~= seq![letters.contains('a'), letters.contains('b'), false, false]);
}

/// `dup` is the inline function with the body `a a`.
pub proof fn dup_as_inline_function(tokens: Seq<Token>, m: Machine)
    requires
        tokens.len() == 2,
        names_letter(tokens[0], 'a'),
        names_letter(tokens[1], 'a'),
    ensures
        invoke(tokens, 0, 2, m) == as_invocation(dup_spec(m.stack), m.sink, 2),
{
    reveal_with_fuel(argument_letters, 3);
    reveal_with_fuel(count_used, 5);
    reveal_with_fuel(run, 3);
    let letters = argument_letters(tokens, 0, 2);
    assert(letters =~= seq!['a', 'a']);
    assert(letters[0] == 'a');
    lemma_usage_of_a_and_b(letters);
    assert(!letters.contains('b')) by {
        if letters.contains('b') {
            let i = choose|i: int| 0 <= i < letters.len() && letters[i] == 'b';
            assert(letters[i] == 'a');
        }
    }
    assert(infer_arity(tokens, 0, 2) == Ok::<int, FaultView>(1));
    if m.stack.len() >= 1 {
        let scope = bind(usage(letters), m.stack);
        let top = m.stack[m.stack.len() - 1];
        assert(bound(scope, 'a') == Some(top));
        let inner = Machine { stack: Seq::empty(), sink: m.sink };
        assert(run(tokens, 0, 2, scope, inner) == Ok::<Machine, EvalErrorView>(
            Machine { stack: Seq::<ValueView>::empty().push(top).push(top), sink: m.sink },
        ));
        assert(m.stack.take(m.stack.len() - 1) + Seq::<ValueView>::empty().push(top).push(top)
            =~= m.stack.push(top));
    }
}

/// `flip` is the inline function with the body `b a`.
pub proof fn flip_as_inline_function(tokens: Seq<Token>, m: Machine)
    requires
        tokens.len() == 2,
        names_letter(tokens[0], 'b'),
        names_letter(tokens[1], 'a'),
    ensures
        invoke(tokens, 0, 2, m) == as_invocation(flip_spec(m.stack), m.sink, 2),
{
    reveal_with_fuel(argument_letters, 3);
    reveal_with_fuel(count_used, 5);
    reveal_with_fuel(run, 3);
    let letters = argument_letters(tokens, 0, 2);
    assert(letters =~= seq!['a', 'b']);
    assert(letters[0] == 'a' && letters[1] == 'b');
    lemma_usage_of_a_and_b(letters);
    assert(infer_arity(tokens, 0, 2) == Ok::<int, FaultView>(2));
    if m.stack.len() >= 2 {
        let scope = bind(usage(letters), m.stack);
        let top = m.stack[m.stack.len() - 1];
        let second = m.stack[m.stack.len() - 2];
        assert(bound(scope, 'a') == Some(top));
        assert(bound(scope, 'b') == Some(second));
        let inner = Machine { stack: Seq::empty(), sink: m.sink };
        assert(run(tokens, 0, 2, scope, inner) == Ok::<Machine, EvalErrorView>(
            Machine { stack: Seq::<ValueView>::empty().push(top).push(second), sink: m.sink },
        ));
        assert(m.stack.take(m.stack.len() - 2) + Seq::<ValueView>::empty().push(top).push(second)
            =~= m.stack.take(m.stack.len() - 2).push(top).push(second));
    }
}

/// `over` is the inline function with the body `b a b`.
pub proof fn over_as_inline_function(tokens: Seq<Token>, m: Machine)
    requires
        tokens.len() == 3,
        names_letter(tokens[0], 'b'),
        names_letter(tokens[1], 'a'),
        names_letter(tokens[2], 'b'),
    ensures
        invoke(tokens, 0, 3, m) == as_invocation(over_spec(m.stack), m.sink, 3),
{
    reveal_with_fuel(argument_letters, 4);
    reveal_with_fuel(count_used, 5);
    reveal_with_fuel(run, 4);
    let letters = argument_letters(tokens, 0, 3);
    assert(letters =~= seq!['b', 'a', 'b']);
    assert(letters[0] == 'b' && letters[1] == 'a');
    lemma_usage_of_a_and_b(letters);
    assert(infer_arity(tokens, 0, 3) == Ok::<int, FaultView>(2));
    if m.stack.len() >= 2 {
        let scope = bind(usage(letters), m.stack);
        let top = m.stack[m.stack.len() - 1];
        let second = m.stack[m.stack.len() - 2];
        assert(bound(scope, 'a') == Some(top));
        assert(bound(scope, 'b') == Some(second));
        let inner = Machine { stack: Seq::empty(), sink: m.sink };
        let left = Seq::<ValueView>::empty().push(second).push(top).push(second);
        assert(run(tokens, 0, 3, scope, inner) == Ok::<Machine, EvalErrorView>(
            Machine { stack: left, sink: m.sink },
        ));
        assert(m.stack.take(m.stack.len() - 2) + left =~= m.stack.push(second));
    }
}

} // verus!
