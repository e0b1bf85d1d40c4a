//! The evaluator: what an expression means, and the loop that computes it.
//!
//! An expression is a flat sequence of tokens. It is carried out from its
//! right end to its left: each operation works on whatever the operations
//! to its right have left on the stack. The result is the final stack,
//! bottom first.

use vstd::prelude::*;
use crate::dfn::{bind, bound, infer, infer_arity, unbound, Dfn, Scope};
use crate::fault::{EvalError, EvalErrorView, Fault, FaultView};
use crate::group::{argument_letters, find_open, lemma_match_open_bounds, match_open, usage};
use crate::primitive::{apply, apply_spec, Machine};
use crate::stack::{underflow, Stack};
use crate::token::{classify, classify_spec, Token, Word};
use crate::value::{character_view, number_view, text_view, views, Value, ValueView};

verus! {

/// The machine with one more value on its stack.
pub open spec fn pushed(m: Machine, v: ValueView) -> Machine {
    Machine { stack: m.stack.push(v), sink: m.sink }
}

/// The error of an operation at `at` that is not a primitive's.
pub open spec fn failure(fault: FaultView, at: int) -> EvalErrorView {
    EvalErrorView { fault, primitive: None, position: at }
}

/// The machine of a stack and of the values sent to the sink.
pub open spec fn machine(stack: Seq<ValueView>, sink: Seq<Value>) -> Machine {
    Machine { stack, sink: views(sink) }
}

/// What carrying out the tokens from `lo` up to `hi` does to a machine,
/// from the right end to the left, with the given bindings of argument
/// letters. The first failure ends the evaluation and is its result.
///
/// A literal pushes its value. A primitive's name applies the primitive. An
/// argument letter pushes the value it is bound to, and is an arity error
/// where it is bound to none. A closing delimiter invokes the body that ends
/// there, see [`invoke`]. A delimiter without its partner, and a name that
/// stands for nothing, are unknown primitives.
pub open spec fn run(
    tokens: Seq<Token>,
    lo: int,
    hi: int,
    scope: Seq<Option<ValueView>>,
    m: Machine,
) -> Result<Machine, EvalErrorView>
    decreases hi - lo, 0int,
{
    if hi <= lo {
        Ok(m)
    } else {
        let at = hi - 1;
        match tokens[at] {
            Token::Number(n) => run(tokens, lo, at, scope, pushed(m, number_view(n))),
            Token::Character(c) => run(tokens, lo, at, scope, pushed(m, character_view(c))),
            Token::Text(t) => run(tokens, lo, at, scope, pushed(m, text_view(t@))),
            Token::Open => Err(failure(FaultView::UnknownPrimitive, at)),
            Token::Close => match match_open(tokens, lo, at, 1) {
                None => Err(failure(FaultView::UnknownPrimitive, at)),
                Some(open) => {
                    proof {
                        lemma_match_open_bounds(tokens, lo, at, 1);
                    }
                    match invoke(tokens, open + 1, at, m) {
                        Ok(after) => run(tokens, lo, open, scope, after),
                        Err(e) => Err(e),
                    }
                },
            },
            Token::Name(name) => match classify_spec(name@) {
                Word::Argument(c) => match bound(scope, c) {
                    Some(v) => run(tokens, lo, at, scope, pushed(m, v)),
                    None => Err(failure(FaultView::ArityError { letter: Some(c) }, at)),
                },
                Word::Primitive(p) => match apply_spec(p, m) {
                    Ok(after) => run(tokens, lo, at, scope, after),
                    Err(f) => Err(EvalErrorView { fault: f, primitive: Some(p), position: at }),
                },
                Word::Unknown => Err(failure(FaultView::UnknownPrimitive, at)),
            },
        }
    }
}

/// What invoking the body from `lo` up to `hi` does to a machine. The body
/// must have an arity `k`, and the stack at least `k` values, else the
/// invocation fails at `hi`. The body is carried out on an empty stack of
/// its own, with its letters bound to the top `k` values; then what it left
/// there takes the place of those `k` values, in the same order.
pub open spec fn invoke(tokens: Seq<Token>, lo: int, hi: int, m: Machine) -> Result<
    Machine,
    EvalErrorView,
>
    decreases hi - lo, 1int,
{
    match infer_arity(tokens, lo, hi) {
        Err(f) => Err(failure(f, hi)),
        Ok(k) => if m.stack.len() < k {
            Err(failure(underflow(k, m.stack.len() as int), hi))
        } else {
            let scope = bind(usage(argument_letters(tokens, lo, hi)), m.stack);
            match run(tokens, lo, hi, scope, Machine { stack: Seq::empty(), sink: m.sink }) {
                Ok(inner) => Ok(
                    Machine {
                        stack: m.stack.take(m.stack.len() - k) + inner.stack,
                        sink: inner.sink,
                    },
                ),
                Err(e) => Err(e),
            }
        },
    }
}

/// Carries out the one operation that ends at `hi`, and says where the
/// next one ends.
fn step(
    tokens: &Vec<Token>,
    lo: usize,
    hi: usize,
    scope: &Scope,
    stack: &mut Stack,
    sink: &mut Vec<Value>,
) -> (r: Result<usize, EvalError>)
    requires
        lo < hi <= tokens.len(),
    ensures
        match r {
            Ok(next) => lo <= next < hi && run(
                tokens@,
                lo as int,
                hi as int,
                scope@,
                machine(old(stack)@, old(sink)@),
            ) == run(tokens@, lo as int, next as int, scope@, machine(final(stack)@, final(sink)@)),
            Err(e) => run(tokens@, lo as int, hi as int, scope@, machine(old(stack)@, old(sink)@))
                == Err::<Machine, EvalErrorView>(e@),
        },
    decreases hi - lo, 0int,
{
    let at = hi - 1;
    match &tokens[at] {
        Token::Number(n) => {
            stack.push(Value::number(*n));
            Ok(at)
        },
        Token::Character(c) => {
            stack.push(Value::character(*c));
            Ok(at)
        },
        Token::Text(t) => {
            stack.push(Value::text(t));
            Ok(at)
        },
        Token::Open => Err(
            EvalError { fault: Fault::UnknownPrimitive, primitive: None, position: at },
        ),
        Token::Close => match find_open(tokens, lo, at) {
            None => Err(
                EvalError { fault: Fault::UnknownPrimitive, primitive: None, position: at },
            ),
            Some(open) => match invoke_range(tokens, open + 1, at, stack, sink) {
                Ok(_) => Ok(open),
                Err(e) => Err(e),
            },
        },
        Token::Name(name) => match classify(name.as_str()) {
            Word::Argument(c) => {
                let copy = match scope.get(c) {
                    Some(v) => v.clone(),
                    None => {
                        return Err(
                            EvalError {
                                fault: Fault::ArityError { letter: Some(c) },
                                primitive: None,
                                position: at,
                            },
                        );
                    },
                };
                stack.push(copy);
                Ok(at)
            },
            Word::Primitive(p) => match apply(p, stack, sink) {
                Ok(_) => Ok(at),
                Err(f) => Err(EvalError { fault: f, primitive: Some(p), position: at }),
            },
            Word::Unknown => Err(
                EvalError { fault: Fault::UnknownPrimitive, primitive: None, position: at },
            ),
        },
    }
}

/// Carries out the tokens from `lo` up to `hi`, right to left.
fn run_range(
    tokens: &Vec<Token>,
    lo: usize,
    hi: usize,
    scope: &Scope,
    stack: &mut Stack,
    sink: &mut Vec<Value>,
) -> (r: Result<(), EvalError>)
    requires
        lo <= hi <= tokens.len(),
    ensures
        match r {
            Ok(_) => run(tokens@, lo as int, hi as int, scope@, machine(old(stack)@, old(sink)@))
                == Ok::<Machine, EvalErrorView>(machine(final(stack)@, final(sink)@)),
            Err(e) => run(tokens@, lo as int, hi as int, scope@, machine(old(stack)@, old(sink)@))
                == Err::<Machine, EvalErrorView>(e@),
        },
    decreases hi - lo, 1int,
{
    let mut cur: usize = hi;
    while cur > lo
        invariant
            lo <= cur <= hi <= tokens.len(),
            run(tokens@, lo as int, hi as int, scope@, machine(old(stack)@, old(sink)@)) == run(
                tokens@,
                lo as int,
                cur as int,
                scope@,
                machine(stack@, sink@),
            ),
        decreases cur - lo,
    {
        match step(tokens, lo, cur, scope, stack, sink) {
            Ok(next) => {
                cur = next;
            },
            Err(e) => {
                return Err(e);
            },
        }
    }
    Ok(())
}

/// Invokes the body from `lo` up to `hi` on the stack. On failure the stack
/// is left as it was.
fn invoke_range(
    tokens: &Vec<Token>,
    lo: usize,
    hi: usize,
    stack: &mut Stack,
    sink: &mut Vec<Value>,
) -> (r: Result<(), EvalError>)
    requires
        lo <= hi <= tokens.len(),
    ensures
        match r {
            Ok(_) => invoke(tokens@, lo as int, hi as int, machine(old(stack)@, old(sink)@))
                == Ok::<Machine, EvalErrorView>(machine(final(stack)@, final(sink)@)),
            Err(e) => invoke(tokens@, lo as int, hi as int, machine(old(stack)@, old(sink)@))
                == Err::<Machine, EvalErrorView>(e@) && final(stack)@ == old(stack)@,
        },
    decreases hi - lo, 2int,
{
    let (k, used) = match infer(tokens, lo, hi) {
        Ok(found) => found,
        Err(f) => {
            return Err(EvalError { fault: f, primitive: None, position: hi });
        },
    };
    let available = stack.len();
    if available < k {
        return Err(
            EvalError {
                fault: Fault::StackUnderflow { needed: k, available },
                primitive: None,
                position: hi,
            },
        );
    }
    let scope = Scope::bind_flags(&used, stack);
    let mut inner = Stack::new();
    match run_range(tokens, lo, hi, &scope, &mut inner, sink) {
        Ok(_) => match stack.discard(k) {
            Ok(_) => {
                stack.extend(inner.into_values());
                Ok(())
            },
            Err(f) => Err(EvalError { fault: f, primitive: None, position: hi }),
        },
        Err(e) => Err(e),
    }
}

/// Invokes an inline function on a stack: takes its arguments off the top,
/// carries out its body, and puts the body's results in their place. The
/// values that the body sent to the diagnostic sink are returned, oldest
/// first. On failure the stack is left exactly as it was. Positions in an
/// error count the tokens of the body; a failure of the invocation itself,
/// such as an underflow, has the position just past the body's end.
pub fn evaluate_dfn(dfn: &Dfn, stack: &mut Stack) -> (r: Result<Vec<Value>, EvalError>)
    ensures
        match r {
            Ok(sent) => invoke(
                dfn.tokens(),
                0,
                dfn.tokens().len() as int,
                Machine { stack: old(stack)@, sink: Seq::empty() },
            ) == Ok::<Machine, EvalErrorView>(machine(final(stack)@, sent@)),
            Err(e) => invoke(
                dfn.tokens(),
                0,
                dfn.tokens().len() as int,
                Machine { stack: old(stack)@, sink: Seq::empty() },
            ) == Err::<Machine, EvalErrorView>(e@) && final(stack)@ == old(stack)@,
        },
        old(stack)@.len() < dfn.spec_arity() ==> r is Err && r->Err_0@.fault == underflow(
            dfn.spec_arity(),
            old(stack)@.len() as int,
        ),
{
    let body = dfn.body();
    let k = dfn.arity();
    let mut sink: Vec<Value> = Vec::new();
    assert(views(sink@) =~= Seq::<ValueView>::empty());
    match invoke_range(body, 0, body.len(), stack, &mut sink) {
        Ok(_) => Ok(sink),
        Err(e) => Err(e),
    }
}

/// Evaluates an expression on an empty stack and returns the final stack,
/// bottom first.
pub fn evaluate(tokens: &Vec<Token>) -> (r: Result<Vec<Value>, EvalError>)
    ensures
        match r {
            Ok(values) => run(
                tokens@,
                0,
                tokens@.len() as int,
                unbound(),
                Machine { stack: Seq::empty(), sink: Seq::empty() },
            ) matches Ok(m) && m.stack == views(values@),
            Err(e) => run(
                tokens@,
                0,
                tokens@.len() as int,
                unbound(),
                Machine { stack: Seq::empty(), sink: Seq::empty() },
            ) == Err::<Machine, EvalErrorView>(e@),
        },
{
    let scope = Scope::empty();
    let mut stack = Stack::new();
    let mut sink: Vec<Value> = Vec::new();
    assert(views(sink@) =~= Seq::<ValueView>::empty());
    match run_range(tokens, 0, tokens.len(), &scope, &mut stack, &mut sink) {
        Ok(_) => Ok(stack.into_values()),
        Err(e) => Err(e),
    }
}

/// Where an evaluator stands.
#[derive(Clone, Copy, Debug, PartialEq, Eq, Structural)]
pub enum Phase {
    /// Waiting for an expression, with whatever is on the stack.
    Ready,
    /// Carrying out an operation. An evaluator is in this phase only while a
    /// call of [`Evaluator::evaluate`] runs.
    Applying,
    /// An operation failed. The evaluator carries the error and does no
    /// further work.
    Failed,
}

/// The mathematical value of an [`Evaluator`].
pub struct EvaluatorView {
    pub phase: Phase,
    pub machine: Machine,
    pub failure: Option<EvalErrorView>,
}

/// The machine with an empty stack and an empty sink.
pub open spec fn blank() -> Machine {
    Machine { stack: Seq::empty(), sink: Seq::empty() }
}

/// The state of an evaluator after it was given an expression. Only a ready
/// evaluator does any work. Where the expression fails, the evaluator ends
/// as failed with the error and nothing else: no partial result is kept.
pub open spec fn after(e: EvaluatorView, tokens: Seq<Token>) -> EvaluatorView {
    if e.phase != Phase::Ready {
        e
    } else {
        match run(tokens, 0, tokens.len() as int, unbound(), e.machine) {
            Ok(m) => EvaluatorView { phase: Phase::Ready, machine: m, failure: None },
            Err(err) => EvaluatorView {
                phase: Phase::Failed,
                machine: blank(),
                failure: Some(err),
            },
        }
    }
}

/// The mathematical value of an optional error.
pub open spec fn failure_view(e: Option<EvalError>) -> Option<EvalErrorView> {
    match e {
        Some(e) => Some(e@),
        None => None,
    }
}

/// An evaluation in progress: a stack, the values sent to the diagnostic
/// sink, and the phase. Each evaluator owns its stack; nothing is shared
/// between two of them.
#[derive(Debug)]
pub struct Evaluator {
    phase: Phase,
    stack: Stack,
    sink: Vec<Value>,
    failure: Option<EvalError>,
}

impl View for Evaluator {
    type V = EvaluatorView;

    closed spec fn view(&self) -> EvaluatorView {
        EvaluatorView {
            phase: self.phase,
            machine: machine(self.stack@, self.sink@),
            failure: failure_view(self.failure),
        }
    }
}

impl Evaluator {
    /// A ready evaluator with an empty stack.
    pub fn new() -> (r: Evaluator)
        ensures
            r@ == (EvaluatorView { phase: Phase::Ready, machine: blank(), failure: None }),
    {
        let sink: Vec<Value> = Vec::new();
        assert(views(sink@) =~= Seq::<ValueView>::empty());
        Evaluator { phase: Phase::Ready, stack: Stack::new(), sink, failure: None }
    }

    /// A ready evaluator that starts from the given stack.
    pub fn with_stack(stack: Stack) -> (r: Evaluator)
        ensures
            r@ == (EvaluatorView {
                phase: Phase::Ready,
                machine: Machine { stack: stack@, sink: Seq::empty() },
                failure: None,
            }),
    {
        let sink: Vec<Value> = Vec::new();
        assert(views(sink@) =~= Seq::<ValueView>::empty());
        Evaluator { phase: Phase::Ready, stack, sink, failure: None }
    }

    /// Where the evaluator stands.
    pub fn phase(&self) -> (p: Phase)
        ensures
            p == self@.phase,
    {
        self.phase
    }

    /// The stack as it is now.
    pub fn stack(&self) -> (s: &Stack)
        ensures
            s@ == self@.machine.stack,
    {
        &self.stack
    }

    /// The values sent to the diagnostic sink so far, oldest first.
    pub fn emitted(&self) -> (s: &Vec<Value>)
        ensures
            views(s@) == self@.machine.sink,
    {
        &self.sink
    }

    /// Gives up the evaluator for its stack.
    pub fn into_stack(self) -> (s: Stack)
        ensures
            s@ == self@.machine.stack,
    {
        self.stack
    }

    /// The error of a failed evaluator.
    pub fn failure(&self) -> (e: Option<&EvalError>)
        ensures
            match e {
                Some(e) => self@.failure == Some(e@),
                None => self@.failure is None,
            },
    {
        match &self.failure {
            Some(e) => Some(e),
            None => None,
        }
    }

    /// Evaluates an expression on the evaluator's stack and returns the
    /// phase reached: `Ready` with the final stack, or `Failed` with the
    /// error. An evaluator that is not ready is left as it is.
    pub fn evaluate(&mut self, tokens: &Vec<Token>) -> (p: Phase)
        ensures
            final(self)@ == after(old(self)@, tokens@),
            p == final(self)@.phase,
    {
        if self.phase != Phase::Ready {
            return self.phase;
        }
        self.phase = Phase::Applying;
        let scope = Scope::empty();
        match run_range(tokens, 0, tokens.len(), &scope, &mut self.stack, &mut self.sink) {
            Ok(_) => {
                self.phase = Phase::Ready;
                self.failure = None;
            },
            Err(e) => {
                let sink: Vec<Value> = Vec::new();
                assert(views(sink@) =~= Seq::<ValueView>::empty());
                self.stack = Stack::new();
                self.sink = sink;
                self.failure = Some(e);
                self.phase = Phase::Failed;
            },
        }
        self.phase
    }
}

/// Failure is terminal: a failed evaluator stays as it is, whatever it is
/// given, and an evaluator never ends in the phase `Applying`.
pub proof fn failed_is_terminal(e: EvaluatorView, tokens: Seq<Token>)
    ensures
        e.phase == Phase::Failed ==> after(e, tokens) == e,
        e.phase == Phase::Ready ==> after(e, tokens).phase != Phase::Applying,
        e.phase == Phase::Ready ==> (after(e, tokens).phase == Phase::Failed <==> after(
            e,
            tokens,
        ).failure is Some),
{
}

/// An invocation on a stack that holds fewer values than the body's arity
/// fails with an underflow that names both numbers.
pub proof fn shallow_stack_is_underflow(tokens: Seq<Token>, lo: int, hi: int, m: Machine, k: int)
    requires
        infer_arity(tokens, lo, hi) == Ok::<int, FaultView>(k),
        m.stack.len() < k,
    ensures
        invoke(tokens, lo, hi, m) == Err::<Machine, EvalErrorView>(
            failure(underflow(k, m.stack.len() as int), hi),
        ),
{
}

} // verus!
