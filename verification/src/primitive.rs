//! The registered primitives: their names, their documented stack effects,
//! and what applying one does to the stack and to the diagnostic sink.

use vstd::prelude::*;
use vstd::string::*;
use crate::arith::{negate, negate_spec, pervade, pervade_spec, Dyadic};
use crate::combinator::{dup, dup_spec, flip, flip_spec, over, over_spec};
use crate::fault::{ErrorKind, Fault, FaultView};
use crate::stack::{underflow, Stack};
use crate::value::{views, Kind, Value, ValueView};

verus! {

/// A built-in operation. The registry is this fixed list.
#[derive(Clone, Copy, Debug, PartialEq, Eq, Structural)]
pub enum Primitive {
    /// `[a] -> [a, a]`
    Dup,
    /// `[a, b] -> [a, b, a]`
    Over,
    /// `[a, b] -> [b, a]`
    Flip,
    /// `[a, b] -> [a + b]`, on numbers
    Add,
    /// `[a, b] -> [a - b]`, on numbers
    Sub,
    /// `[a, b] -> [a * b]`, on numbers
    Mul,
    /// `[a] -> [-a]`, on numbers
    Neg,
    /// `[a] -> [a]`, and a copy of `a` goes to the diagnostic sink
    Debug,
}

/// Whether two texts hold the same characters.
pub fn same_text(a: &str, b: &str) -> (r: bool)
    ensures
        r == (a@ == b@),
{
    let n = a.unicode_len();
    if n != b.unicode_len() {
        return false;
    }
    let mut i: usize = 0;
    while i < n
        invariant
            0 <= i <= n,
            n == a@.len(),
            n == b@.len(),
            forall|j: int| 0 <= j < i ==> a@[j] == b@[j],
        decreases n - i,
    {
        if a.get_char(i) != b.get_char(i) {
            return false;
        }
        i += 1;
    }
    assert(a@ =~= b@);
    true
}

/// The primitive registered under a name, if there is one.
pub open spec fn lookup(name: Seq<char>) -> Option<Primitive> {
    if name == "dup"@ {
        Some(Primitive::Dup)
    } else if name == "over"@ {
        Some(Primitive::Over)
    } else if name == "flip"@ {
        Some(Primitive::Flip)
    } else if name == "add"@ {
        Some(Primitive::Add)
    } else if name == "sub"@ {
        Some(Primitive::Sub)
    } else if name == "mul"@ {
        Some(Primitive::Mul)
    } else if name == "neg"@ {
        Some(Primitive::Neg)
    } else if name == "debug"@ {
        Some(Primitive::Debug)
    } else {
        None
    }
}

impl Primitive {
    pub open spec fn spec_name(&self) -> Seq<char> {
        match self {
            Primitive::Dup => "dup"@,
            Primitive::Over => "over"@,
            Primitive::Flip => "flip"@,
            Primitive::Add => "add"@,
            Primitive::Sub => "sub"@,
            Primitive::Mul => "mul"@,
            Primitive::Neg => "neg"@,
            Primitive::Debug => "debug"@,
        }
    }

    /// The name under which the primitive is registered.
    pub fn name(&self) -> (s: &'static str)
        ensures
            s@ == self.spec_name(),
    {
        match self {
            Primitive::Dup => "dup",
            Primitive::Over => "over",
            Primitive::Flip => "flip",
            Primitive::Add => "add",
            Primitive::Sub => "sub",
            Primitive::Mul => "mul",
            Primitive::Neg => "neg",
            Primitive::Debug => "debug",
        }
    }

    /// Resolves a name; `None` where no primitive is registered under it.
    pub fn from_name(name: &str) -> (r: Option<Primitive>)
        ensures
            r == lookup(name@),
    {
        if same_text(name, "dup") {
            Some(Primitive::Dup)
        } else if same_text(name, "over") {
            Some(Primitive::Over)
        } else if same_text(name, "flip") {
            Some(Primitive::Flip)
        } else if same_text(name, "add") {
            Some(Primitive::Add)
        } else if same_text(name, "sub") {
            Some(Primitive::Sub)
        } else if same_text(name, "mul") {
            Some(Primitive::Mul)
        } else if same_text(name, "neg") {
            Some(Primitive::Neg)
        } else if same_text(name, "debug") {
            Some(Primitive::Debug)
        } else {
            None
        }
    }

    /// The registered primitives, in the order of the registry.
    pub fn all() -> (r: Vec<Primitive>)
        ensures
            r@ == registry(),
    {
        let mut r: Vec<Primitive> = Vec::new();
        r.push(Primitive::Dup);
        r.push(Primitive::Over);
        r.push(Primitive::Flip);
        r.push(Primitive::Add);
        r.push(Primitive::Sub);
        r.push(Primitive::Mul);
        r.push(Primitive::Neg);
        r.push(Primitive::Debug);
        assert(r@ =~= registry());
        r
    }

    pub open spec fn spec_is_io(&self) -> bool {
        self is Debug
    }

    /// Whether the primitive sends values to the diagnostic sink. All
    /// others act on the stack alone.
    pub fn is_io(&self) -> (b: bool)
        ensures
            b == self.spec_is_io(),
    {
        match self {
            Primitive::Debug => true,
            _ => false,
        }
    }

    pub open spec fn spec_inputs(&self) -> nat {
        match self {
            Primitive::Dup => 1,
            Primitive::Over => 2,
            Primitive::Flip => 2,
            Primitive::Add => 2,
            Primitive::Sub => 2,
            Primitive::Mul => 2,
            Primitive::Neg => 1,
            Primitive::Debug => 1,
        }
    }

    /// How many values the primitive needs on the stack.
    pub fn inputs(&self) -> (n: usize)
        ensures
            n == self.spec_inputs(),
    {
        match self {
            Primitive::Dup => 1,
            Primitive::Over => 2,
            Primitive::Flip => 2,
            Primitive::Add => 2,
            Primitive::Sub => 2,
            Primitive::Mul => 2,
            Primitive::Neg => 1,
            Primitive::Debug => 1,
        }
    }

    pub open spec fn spec_outputs(&self) -> nat {
        match self {
            Primitive::Dup => 2,
            Primitive::Over => 3,
            Primitive::Flip => 2,
            Primitive::Add => 1,
            Primitive::Sub => 1,
            Primitive::Mul => 1,
            Primitive::Neg => 1,
            Primitive::Debug => 1,
        }
    }

    /// How many values stand in place of the inputs afterwards.
    pub fn outputs(&self) -> (n: usize)
        ensures
            n == self.spec_outputs(),
    {
        match self {
            Primitive::Dup => 2,
            Primitive::Over => 3,
            Primitive::Flip => 2,
            Primitive::Add => 1,
            Primitive::Sub => 1,
            Primitive::Mul => 1,
            Primitive::Neg => 1,
            Primitive::Debug => 1,
        }
    }

    pub open spec fn spec_required_kind(&self) -> Option<Kind> {
        match self {
            Primitive::Add => Some(Kind::Number),
            Primitive::Sub => Some(Kind::Number),
            Primitive::Mul => Some(Kind::Number),
            Primitive::Neg => Some(Kind::Number),
            _ => None,
        }
    }

    /// The element kind that every input must have; `None` for a primitive
    /// that takes values of any kind.
    pub fn required_kind(&self) -> (k: Option<Kind>)
        ensures
            k == self.spec_required_kind(),
    {
        match self {
            Primitive::Add => Some(Kind::Number),
            Primitive::Sub => Some(Kind::Number),
            Primitive::Mul => Some(Kind::Number),
            Primitive::Neg => Some(Kind::Number),
            _ => None,
        }
    }
}

/// The registry: every primitive, once.
pub open spec fn registry() -> Seq<Primitive> {
    seq![
        Primitive::Dup,
        Primitive::Over,
        Primitive::Flip,
        Primitive::Add,
        Primitive::Sub,
        Primitive::Mul,
        Primitive::Neg,
        Primitive::Debug,
    ]
}

/// What an evaluation works on: the stack, bottom first, and the values
/// that were sent to the diagnostic sink so far, oldest first.
pub struct Machine {
    pub stack: Seq<ValueView>,
    pub sink: Seq<ValueView>,
}

/// A stack result together with an unchanged sink.
pub open spec fn with_sink(r: Result<Seq<ValueView>, FaultView>, sink: Seq<ValueView>) -> Result<
    Machine,
    FaultView,
> {
    match r {
        Ok(stack) => Ok(Machine { stack, sink }),
        Err(f) => Err(f),
    }
}

/// The effect of an operation on two number arrays: the top two values
/// give way to their result.
pub open spec fn dyadic_spec(op: Dyadic, s: Seq<ValueView>) -> Result<Seq<ValueView>, FaultView> {
    if s.len() < 2 {
        Err(underflow(2, s.len() as int))
    } else {
        match pervade_spec(op, s[s.len() - 2], s[s.len() - 1]) {
            Ok(v) => Ok(s.take(s.len() - 2).push(v)),
            Err(f) => Err(f),
        }
    }
}

/// The effect of negation: the top value gives way to its negation.
pub open spec fn monadic_spec(s: Seq<ValueView>) -> Result<Seq<ValueView>, FaultView> {
    if s.len() < 1 {
        Err(underflow(1, s.len() as int))
    } else {
        match negate_spec(s[s.len() - 1]) {
            Ok(v) => Ok(s.take(s.len() - 1).push(v)),
            Err(f) => Err(f),
        }
    }
}

/// What applying a primitive does.
pub open spec fn apply_spec(p: Primitive, m: Machine) -> Result<Machine, FaultView> {
    match p {
        Primitive::Dup => with_sink(dup_spec(m.stack), m.sink),
        Primitive::Over => with_sink(over_spec(m.stack), m.sink),
        Primitive::Flip => with_sink(flip_spec(m.stack), m.sink),
        Primitive::Add => with_sink(dyadic_spec(Dyadic::Add, m.stack), m.sink),
        Primitive::Sub => with_sink(dyadic_spec(Dyadic::Sub, m.stack), m.sink),
        Primitive::Mul => with_sink(dyadic_spec(Dyadic::Mul, m.stack), m.sink),
        Primitive::Neg => with_sink(monadic_spec(m.stack), m.sink),
        Primitive::Debug => if m.stack.len() < 1 {
            Err(underflow(1, m.stack.len() as int))
        } else {
            Ok(Machine { stack: m.stack, sink: m.sink.push(m.stack[m.stack.len() - 1]) })
        },
    }
}

/// Applies an operation on two number arrays to the top of the stack.
fn apply_dyadic(op: Dyadic, stack: &mut Stack) -> (r: Result<(), Fault>)
    ensures
        match r {
            Ok(_) => dyadic_spec(op, old(stack)@) == Ok::<Seq<ValueView>, FaultView>(
                final(stack)@,
            ),
            Err(f) => dyadic_spec(op, old(stack)@) == Err::<Seq<ValueView>, FaultView>(f@)
                && final(stack)@ == old(stack)@,
        },
{
    let n = stack.len();
    if n < 2 {
        return Err(Fault::StackUnderflow { needed: 2, available: n });
    }
    let result = match (stack.top(1), stack.top(0)) {
        (Some(a), Some(b)) => pervade(op, a, b),
        (_, _) => Err(Fault::StackUnderflow { needed: 2, available: n }),
    };
    match result {
        Ok(v) => match stack.discard(2) {
            Ok(_) => {
                stack.push(v);
                Ok(())
            },
            Err(f) => Err(f),
        },
        Err(f) => Err(f),
    }
}

/// Applies negation to the top of the stack.
fn apply_monadic(stack: &mut Stack) -> (r: Result<(), Fault>)
    ensures
        match r {
            Ok(_) => monadic_spec(old(stack)@) == Ok::<Seq<ValueView>, FaultView>(final(stack)@),
            Err(f) => monadic_spec(old(stack)@) == Err::<Seq<ValueView>, FaultView>(f@)
                && final(stack)@ == old(stack)@,
        },
{
    let result = match stack.top(0) {
        Some(a) => negate(a),
        None => {
            return Err(Fault::StackUnderflow { needed: 1, available: 0 });
        },
    };
    match result {
        Ok(v) => match stack.discard(1) {
            Ok(_) => {
                stack.push(v);
                Ok(())
            },
            Err(f) => Err(f),
        },
        Err(f) => Err(f),
    }
}

/// Applies a primitive to the stack and the sink. On failure both are left
/// as they were.
pub fn apply(p: Primitive, stack: &mut Stack, sink: &mut Vec<Value>) -> (r: Result<(), Fault>)
    ensures
        match r {
            Ok(_) => apply_spec(p, Machine { stack: old(stack)@, sink: views(old(sink)@) })
                == Ok::<Machine, FaultView>(
                Machine { stack: final(stack)@, sink: views(final(sink)@) },
            ),
            Err(f) => apply_spec(p, Machine { stack: old(stack)@, sink: views(old(sink)@) })
                == Err::<Machine, FaultView>(f@) && final(stack)@ == old(stack)@ && views(
                final(sink)@,
            ) == views(old(sink)@),
        },
{
    match p {
        Primitive::Dup => dup(stack),
        Primitive::Over => over(stack),
        Primitive::Flip => flip(stack),
        Primitive::Add => apply_dyadic(Dyadic::Add, stack),
        Primitive::Sub => apply_dyadic(Dyadic::Sub, stack),
        Primitive::Mul => apply_dyadic(Dyadic::Mul, stack),
        Primitive::Neg => apply_monadic(stack),
        Primitive::Debug => {
            let copy = match stack.top(0) {
                Some(v) => v.clone(),
                None => {
                    return Err(Fault::StackUnderflow { needed: 1, available: 0 });
                },
            };
            sink.push(copy);
            assert(views(sink@) =~= views(old(sink)@).push(copy@));
            Ok(())
        },
    }
}

/// Every primitive is found again under its own name.
pub proof fn lookup_finds_name(p: Primitive)
    ensures
        lookup(p.spec_name()) == Some(p),
{
    reveal_strlit("dup");
    reveal_strlit("over");
    reveal_strlit("flip");
    reveal_strlit("add");
    reveal_strlit("sub");
    reveal_strlit("mul");
    reveal_strlit("neg");
    reveal_strlit("debug");
    let n = p.spec_name();
    assert("dup"@[0] == 'd' && "over"@[0] == 'o' && "flip"@[0] == 'f' && "add"@[0] == 'a');
    assert("sub"@[0] == 's' && "mul"@[0] == 'm' && "neg"@[0] == 'n' && "debug"@[0] == 'd');
    assert("dup"@.len() == 3 && "debug"@.len() == 5);
}

/// The documented effect on the stack's depth: a primitive fails with an
/// underflow exactly where the stack holds fewer values than it takes, and
/// where it succeeds its outputs stand in place of its inputs.
pub proof fn effect_on_depth(p: Primitive, m: Machine)
    ensures
        m.stack.len() < p.spec_inputs() <==> apply_spec(p, m) == Err::<Machine, FaultView>(
            underflow(p.spec_inputs() as int, m.stack.len() as int),
        ),
        apply_spec(p, m) is Ok ==> apply_spec(p, m)->Ok_0.stack.len() == m.stack.len()
            - p.spec_inputs() + p.spec_outputs(),
{
}

/// A primitive that asks for one element kind fails with a type mismatch,
/// naming that kind, on a stack deep enough whose input at `depth` places
/// below the top is of another kind.
pub proof fn foreign_kind_is_type_mismatch(p: Primitive, m: Machine, depth: int)
    requires
        p.spec_required_kind() is Some,
        m.stack.len() >= p.spec_inputs(),
        0 <= depth < p.spec_inputs(),
        m.stack[m.stack.len() - 1 - depth].kind != p.spec_required_kind()->Some_0,
    ensures
        apply_spec(p, m) is Err,
        apply_spec(p, m)->Err_0.kind() == ErrorKind::TypeMismatch,
        apply_spec(p, m)->Err_0->TypeMismatch_expected == p.spec_required_kind()->Some_0,
{
}

/// No primitive reaches below the second value from the top: each takes at
/// most two values, and where it succeeds everything beneath its inputs is
/// left as it was.
pub proof fn reach_is_two_deep(p: Primitive, m: Machine)
    ensures
        p.spec_inputs() <= 2,
        apply_spec(p, m) is Ok ==> apply_spec(p, m)->Ok_0.stack.take(
            m.stack.len() - p.spec_inputs(),
        ) == m.stack.take(m.stack.len() - p.spec_inputs()),
{
    if apply_spec(p, m) is Ok {
        let after = apply_spec(p, m)->Ok_0.stack;
        let keep = m.stack.len() - p.spec_inputs();
        assert(after.take(keep) =~= m.stack.take(keep));
    }
}

/// Every primitive is in the registry.
pub proof fn registry_is_complete(p: Primitive)
    ensures
        registry().contains(p),
{
    let r = registry();
    assert(r[0] == Primitive::Dup && r[1] == Primitive::Over && r[2] == Primitive::Flip);
    assert(r[3] == Primitive::Add && r[4] == Primitive::Sub && r[5] == Primitive::Mul);
    assert(r[6] == Primitive::Neg && r[7] == Primitive::Debug);
}

/// A primitive that is not an I/O primitive leaves the sink as it was.
pub proof fn only_io_reaches_the_sink(p: Primitive, m: Machine)
    requires
        !p.spec_is_io(),
    ensures
        apply_spec(p, m) is Ok ==> apply_spec(p, m)->Ok_0.sink == m.sink,
{
}

} // verus!
