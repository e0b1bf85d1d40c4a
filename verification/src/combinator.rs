//! The three stack combinators. Each is given by its effect on the stack
//! alone; none reaches below the second value from the top, and there is no
//! rotation of three or more values.

use vstd::prelude::*;
use crate::fault::{Fault, FaultView};
use crate::stack::{pop_spec, underflow, Stack};
use crate::value::ValueView;

verus! {

/// `[a] -> [a, a]`: a second copy of the top value goes on top.
pub open spec fn dup_spec(s: Seq<ValueView>) -> Result<Seq<ValueView>, FaultView> {
    if s.len() < 1 {
        Err(underflow(1, s.len() as int))
    } else {
        Ok(s.push(s[s.len() - 1]))
    }
}

/// `[a, b] -> [a, b, a]`: a copy of the second value from the top goes on top.
pub open spec fn over_spec(s: Seq<ValueView>) -> Result<Seq<ValueView>, FaultView> {
    if s.len() < 2 {
        Err(underflow(2, s.len() as int))
    } else {
        Ok(s.push(s[s.len() - 2]))
    }
}

/// `[a, b] -> [b, a]`: the top two values change places.
pub open spec fn flip_spec(s: Seq<ValueView>) -> Result<Seq<ValueView>, FaultView> {
    if s.len() < 2 {
        Err(underflow(2, s.len() as int))
    } else {
        Ok(s.take(s.len() - 2).push(s[s.len() - 1]).push(s[s.len() - 2]))
    }
}

/// Duplicates the top value. On the empty stack this is an underflow and the
/// stack is left as it was.
pub fn dup(stack: &mut Stack) -> (r: Result<(), Fault>)
    ensures
        match r {
            Ok(_) => dup_spec(old(stack)@) == Ok::<Seq<ValueView>, FaultView>(final(stack)@),
            Err(f) => dup_spec(old(stack)@) == Err::<Seq<ValueView>, FaultView>(f@)
                && final(stack)@ == old(stack)@,
        },
{
    let copy = match stack.top(0) {
        Some(v) => v.clone(),
        None => {
            return Err(Fault::StackUnderflow { needed: 1, available: 0 });
        },
    };
    stack.push(copy);
    Ok(())
}

/// Copies the second value from the top onto the top. With fewer than two
/// values this is an underflow and the stack is left as it was.
pub fn over(stack: &mut Stack) -> (r: Result<(), Fault>)
    ensures
        match r {
            Ok(_) => over_spec(old(stack)@) == Ok::<Seq<ValueView>, FaultView>(final(stack)@),
            Err(f) => over_spec(old(stack)@) == Err::<Seq<ValueView>, FaultView>(f@)
                && final(stack)@ == old(stack)@,
        },
{
    let copy = match stack.top(1) {
        Some(v) => v.clone(),
        None => {
            return Err(Fault::StackUnderflow { needed: 2, available: stack.len() });
        },
    };
    stack.push(copy);
    Ok(())
}

/// Swaps the top two values. With fewer than two values this is an underflow
/// and the stack is left as it was.
pub fn flip(stack: &mut Stack) -> (r: Result<(), Fault>)
    ensures
        match r {
            Ok(_) => flip_spec(old(stack)@) == Ok::<Seq<ValueView>, FaultView>(final(stack)@),
            Err(f) => flip_spec(old(stack)@) == Err::<Seq<ValueView>, FaultView>(f@)
                && final(stack)@ == old(stack)@,
        },
{
    let n = stack.len();
    if n < 2 {
        return Err(Fault::StackUnderflow { needed: 2, available: n });
    }
    let b = match stack.pop() {
        Ok(v) => v,
        Err(f) => {
            return Err(f);
        },
    };
    let a = match stack.pop() {
        Ok(v) => v,
        Err(f) => {
            return Err(f);
        },
    };
    stack.push(b);
    stack.push(a);
    assert(stack@ =~= old(stack)@.take(old(stack)@.len() - 2).push(
        old(stack)@[old(stack)@.len() - 1],
    ).push(old(stack)@[old(stack)@.len() - 2]));
    Ok(())
}

/// Duplicating the top value `a` and then popping twice gives `a` both
/// times, and leaves the stack one value shorter than it was before the
/// duplication, which itself made the stack exactly one value longer.
pub proof fn dup_then_pop_twice(below: Seq<ValueView>, a: ValueView)
    ensures
        dup_spec(below.push(a)) == Ok::<Seq<ValueView>, FaultView>(below.push(a).push(a)),
        below.push(a).push(a).len() == below.push(a).len() + 1,
        pop_spec(below.push(a).push(a)) == Ok::<(ValueView, Seq<ValueView>), FaultView>(
            (a, below.push(a)),
        ),
        pop_spec(below.push(a)) == Ok::<(ValueView, Seq<ValueView>), FaultView>((a, below)),
        below.len() == below.push(a).len() - 1,
{
    assert(below.push(a).push(a).drop_last() =~= below.push(a));
    assert(below.push(a).drop_last() =~= below);
}

/// Flipping twice restores the stack: the same values in the same order.
pub proof fn flip_is_involution(s: Seq<ValueView>)
    requires
        s.len() >= 2,
    ensures
        flip_spec(s) is Ok,
        flip_spec(flip_spec(s)->Ok_0) == Ok::<Seq<ValueView>, FaultView>(s),
{
    let once = flip_spec(s)->Ok_0;
    let twice = flip_spec(once)->Ok_0;
    assert(once.take(once.len() - 2) =~= s.take(s.len() - 2));
    assert(twice =~= s);
}

/// `over` on a stack that ends in `a, b` leaves both where they were, puts
/// a copy of `a` on top, and so makes the stack exactly one value deeper.
pub proof fn over_keeps_order(below: Seq<ValueView>, a: ValueView, b: ValueView)
    ensures
        over_spec(below.push(a).push(b)) == Ok::<Seq<ValueView>, FaultView>(
            below.push(a).push(b).push(a),
        ),
        below.push(a).push(b).push(a).len() == below.push(a).push(b).len() + 1,
{
}

} // verus!
