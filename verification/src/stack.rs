//! The value stack: the only channel between operations.

use vstd::prelude::*;
use crate::fault::{Fault, FaultView};
use crate::value::{views, Value, ValueView};

verus! {

/// The failure of an operation that needs `needed` values on a stack that
/// holds `available`.
pub open spec fn underflow(needed: int, available: int) -> FaultView {
    FaultView::StackUnderflow { needed, available }
}

/// What popping gives: the top value and the stack beneath it, or an
/// underflow on the empty stack.
pub open spec fn pop_spec(s: Seq<ValueView>) -> Result<(ValueView, Seq<ValueView>), FaultView> {
    if s.len() == 0 {
        Err(underflow(1, 0))
    } else {
        Ok((s.last(), s.drop_last()))
    }
}

/// What peeking at the top `n` values gives: those values, deepest first, or
/// an underflow where the stack holds fewer.
pub open spec fn peek_spec(s: Seq<ValueView>, n: int) -> Result<Seq<ValueView>, FaultView> {
    if s.len() < n {
        Err(underflow(n, s.len() as int))
    } else {
        Ok(s.subrange(s.len() - n, s.len() as int))
    }
}

/// An ordered sequence of arrays; the last one is the top.
#[derive(Debug)]
pub struct Stack {
    items: Vec<Value>,
}

impl View for Stack {
    type V = Seq<ValueView>;

    /// The values from the bottom of the stack to its top.
    closed spec fn view(&self) -> Seq<ValueView> {
        views(self.items@)
    }
}

impl Stack {
    /// The empty stack.
    pub fn new() -> (r: Stack)
        ensures
            r@ == Seq::<ValueView>::empty(),
    {
        let r = Stack { items: Vec::new() };
        assert(r@ =~= Seq::<ValueView>::empty());
        r
    }

    /// The stack that holds the given values, the last one on top.
    pub fn from_values(values: Vec<Value>) -> (r: Stack)
        ensures
            r@ == views(values@),
    {
        Stack { items: values }
    }

    /// The values from the bottom of the stack to its top.
    pub fn into_values(self) -> (r: Vec<Value>)
        ensures
            views(r@) == self@,
    {
        self.items
    }

    /// The number of values on the stack.
    pub fn len(&self) -> (n: usize)
        ensures
            n == self@.len(),
    {
        self.items.len()
    }

    /// Whether the stack holds no value.
    pub fn is_empty(&self) -> (b: bool)
        ensures
            b == (self@.len() == 0),
    {
        self.items.len() == 0
    }

    /// Puts a value on top.
    pub fn push(&mut self, v: Value)
        ensures
            final(self)@ == old(self)@.push(v@),
    {
        self.items.push(v);
        assert(self@ =~= old(self)@.push(v@));
    }

    /// Takes the top value off. On the empty stack this is an underflow and
    /// the stack stays empty.
    pub fn pop(&mut self) -> (r: Result<Value, Fault>)
        ensures
            match r {
                Ok(v) => pop_spec(old(self)@) == Ok::<(ValueView, Seq<ValueView>), FaultView>(
                    (v@, final(self)@),
                ),
                Err(f) => pop_spec(old(self)@) == Err::<(ValueView, Seq<ValueView>), FaultView>(f@)
                    && final(self)@ == old(self)@,
            },
    {
        match self.items.pop() {
            Some(v) => {
                assert(self@ =~= old(self)@.drop_last());
                Ok(v)
            },
            None => Err(Fault::StackUnderflow { needed: 1, available: 0 }),
        }
    }

    /// The value `depth` places below the top, without removing anything;
    /// `None` where the stack is not that deep.
    pub fn top(&self, depth: usize) -> (r: Option<&Value>)
        ensures
            match r {
                Some(v) => depth < self@.len() && v@ == self@[self@.len() - 1 - depth],
                None => depth >= self@.len(),
            },
    {
        if depth < self.items.len() {
            Some(&self.items[self.items.len() - 1 - depth])
        } else {
            None
        }
    }

    /// Copies of the top `n` values, deepest first, without removing them.
    /// Where the stack holds fewer than `n`, this is an underflow.
    pub fn peek(&self, n: usize) -> (r: Result<Vec<Value>, Fault>)
        ensures
            match r {
                Ok(vs) => peek_spec(self@, n as int) == Ok::<Seq<ValueView>, FaultView>(views(vs@)),
                Err(f) => peek_spec(self@, n as int) == Err::<Seq<ValueView>, FaultView>(f@),
            },
    {
        let len = self.items.len();
        if len < n {
            return Err(Fault::StackUnderflow { needed: n, available: len });
        }
        let mut out: Vec<Value> = Vec::new();
        let mut i: usize = len - n;
        while i < len
            invariant
                len == self.items.len(),
                n <= len,
                len - n <= i <= len,
                out@.len() == i - (len - n),
                forall|j: int| 0 <= j < out@.len() ==> (#[trigger] out@[j])@ == self.items@[len - n + j]@,
            decreases len - i,
        {
            out.push(self.items[i].clone());
            i += 1;
        }
        assert(views(out@) =~= self@.subrange(self@.len() - n, self@.len() as int));
        Ok(out)
    }

    /// Removes the top `n` values. Where the stack holds fewer than `n`,
    /// this is an underflow and nothing is removed.
    pub fn discard(&mut self, n: usize) -> (r: Result<(), Fault>)
        ensures
            match r {
                Ok(_) => n <= old(self)@.len() && final(self)@ == old(self)@.take(
                    old(self)@.len() - n,
                ),
                Err(f) => n > old(self)@.len() && f@ == underflow(
                    n as int,
                    old(self)@.len() as int,
                ) && final(self)@ == old(self)@,
            },
    {
        let len = self.items.len();
        if len < n {
            return Err(Fault::StackUnderflow { needed: n, available: len });
        }
        self.items.truncate(len - n);
        assert(self@ =~= old(self)@.take(old(self)@.len() - n));
        Ok(())
    }

    /// Puts the given values on top, the last one topmost.
    pub fn extend(&mut self, values: Vec<Value>)
        ensures
            final(self)@ == old(self)@ + views(values@),
    {
        let ghost added = views(values@);
        let mut values = values;
        self.items.append(&mut values);
        assert(self@ =~= old(self)@ + added);
    }
}

} // verus!
