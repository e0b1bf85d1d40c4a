//! Inline functions: arity inference and the binding of argument letters.
//!
//! The arity of a body is the number of distinct argument letters it refers
//! to outside nested bodies. On invocation the letters in use are bound in
//! alphabetical order from the top of the stack down: the earliest letter
//! gets the top value. A nested body has letters of its own and sees none of
//! the bindings around it.

use vstd::prelude::*;
use crate::fault::{Fault, FaultView};
use crate::group::{argument_letters, count_flags, count_used, first_excess, scan_letters, usage};
use crate::stack::{underflow, Stack};
use crate::token::{slot, spec_slot, letter_of, Token, MAX_ARITY};
use crate::value::{Value, ValueView};

verus! {

/// The arity of the body that the tokens from `lo` up to `hi` form: the
/// number of distinct supported letters it refers to. A body that refers to
/// an unsupported letter has none, and the error names the first such
/// letter from the right; a body that refers to no letter at all has none
/// either.
pub open spec fn infer_arity(tokens: Seq<Token>, lo: int, hi: int) -> Result<int, FaultView> {
    let letters = argument_letters(tokens, lo, hi);
    match first_excess(letters, 0) {
        Some(c) => Err(FaultView::ArityError { letter: Some(c) }),
        None => if count_used(usage(letters), MAX_ARITY as int) == 0 {
            Err(FaultView::ArityError { letter: None })
        } else {
            Ok(count_used(usage(letters), MAX_ARITY as int))
        },
    }
}

/// Computes [`infer_arity`], and with the arity the letters in use.
pub(crate) fn infer(tokens: &Vec<Token>, lo: usize, hi: usize) -> (r: Result<(usize, Vec<bool>), Fault>)
    requires
        lo <= hi <= tokens.len(),
    ensures
        match r {
            Ok((k, used)) => infer_arity(tokens@, lo as int, hi as int) == Ok::<int, FaultView>(
                k as int,
            ) && used@ == usage(argument_letters(tokens@, lo as int, hi as int)) && 1 <= k
                <= MAX_ARITY,
            Err(f) => infer_arity(tokens@, lo as int, hi as int) == Err::<int, FaultView>(f@),
        },
{
    let (used, excess) = scan_letters(tokens, lo, hi);
    match excess {
        Some(c) => Err(Fault::ArityError { letter: Some(c) }),
        None => {
            let k = count_flags(&used);
            if k == 0 {
                Err(Fault::ArityError { letter: None })
            } else {
                Ok((k, used))
            }
        },
    }
}

/// The bindings of an invocation, one place for each supported letter. A
/// letter in use is bound to the value as many places below the top as
/// there are letters in use before it.
pub open spec fn bind(used: Seq<bool>, stack: Seq<ValueView>) -> Seq<Option<ValueView>> {
    Seq::new(
        MAX_ARITY as nat,
        |k: int|
            if used[k] {
                Some(stack[stack.len() - 1 - count_used(used, k)])
            } else {
                None
            },
    )
}

/// The bindings outside any inline function: none.
pub open spec fn unbound() -> Seq<Option<ValueView>> {
    Seq::new(MAX_ARITY as nat, |k: int| None)
}

/// The value that a letter is bound to, if it is bound.
pub open spec fn bound(scope: Seq<Option<ValueView>>, c: char) -> Option<ValueView> {
    match spec_slot(c) {
        Some(k) => scope[k as int],
        None => None,
    }
}

/// The mathematical value of an optional array.
pub open spec fn slot_view(v: Option<Value>) -> Option<ValueView> {
    match v {
        Some(v) => Some(v@),
        None => None,
    }
}

/// The counts of flags never decrease and never exceed the places counted.
pub proof fn lemma_count_bounds(used: Seq<bool>, j: int, k: int)
    requires
        0 <= j <= k,
    ensures
        0 <= count_used(used, j) <= count_used(used, k),
        count_used(used, k) - count_used(used, j) <= k - j,
    decreases k - j,
{
    if j < k {
        lemma_count_bounds(used, j, k - 1);
    } else {
        lemma_count_nonnegative(used, j);
    }
}

/// A count of flags is between 0 and the places counted.
pub proof fn lemma_count_nonnegative(used: Seq<bool>, k: int)
    requires
        0 <= k,
    ensures
        0 <= count_used(used, k) <= k,
    decreases k,
{
    if k > 0 {
        lemma_count_nonnegative(used, k - 1);
    }
}

/// The table of bindings of one invocation. It is built when the function
/// is invoked, handed to the evaluation of the body, and dropped afterwards.
#[derive(Debug)]
pub struct Scope {
    slots: Vec<Option<Value>>,
}

impl View for Scope {
    type V = Seq<Option<ValueView>>;

    closed spec fn view(&self) -> Seq<Option<ValueView>> {
        Seq::new(self.slots@.len(), |k: int| slot_view(self.slots@[k]))
    }
}

impl Scope {
    #[verifier::type_invariant]
    spec fn inv(&self) -> bool {
        self.slots@.len() == MAX_ARITY
    }

    /// The table that binds no letter.
    pub fn empty() -> (r: Scope)
        ensures
            r@ == unbound(),
    {
        let mut slots: Vec<Option<Value>> = Vec::new();
        slots.push(None);
        slots.push(None);
        slots.push(None);
        slots.push(None);
        let r = Scope { slots };
        assert(r@ =~= unbound());
        r
    }

    /// Binds the letters of an inline function to copies of the values on top
    /// of the stack. Where the stack holds fewer values than the function
    /// takes, this is an underflow.
    pub fn bind(dfn: &Dfn, stack: &Stack) -> (r: Result<Scope, Fault>)
        ensures
            match r {
                Ok(s) => dfn.spec_arity() <= stack@.len() && s@ == bind(
                    usage(argument_letters(dfn.tokens(), 0, dfn.tokens().len() as int)),
                    stack@,
                ),
                Err(f) => stack@.len() < dfn.spec_arity() && f@ == underflow(
                    dfn.spec_arity(),
                    stack@.len() as int,
                ),
            },
    {
        proof {
            use_type_invariant(dfn);
        }
        let available = stack.len();
        if available < dfn.arity {
            return Err(Fault::StackUnderflow { needed: dfn.arity, available });
        }
        Ok(Scope::bind_flags(&dfn.used, stack))
    }

    /// Binds the letters in use to copies of the values on top of the stack.
    pub(crate) fn bind_flags(used: &Vec<bool>, stack: &Stack) -> (r: Scope)
        requires
            used@.len() == MAX_ARITY,
            count_used(used@, MAX_ARITY as int) <= stack@.len(),
        ensures
            r@ == bind(used@, stack@),
    {
        let mut slots: Vec<Option<Value>> = Vec::new();
        let mut depth: usize = 0;
        let mut k: usize = 0;
        while k < MAX_ARITY
            invariant
                0 <= k <= MAX_ARITY,
                used@.len() == MAX_ARITY,
                count_used(used@, MAX_ARITY as int) <= stack@.len(),
                depth == count_used(used@, k as int),
                depth <= k,
                slots@.len() == k,
                forall|j: int| 0 <= j < k ==> slot_view(#[trigger] slots@[j]) == bind(used@, stack@)[j],
            decreases MAX_ARITY - k,
        {
            proof {
                lemma_count_bounds(used@, k as int + 1, MAX_ARITY as int);
            }
            if used[k] {
                match stack.top(depth) {
                    Some(v) => {
                        slots.push(Some(v.clone()));
                    },
                    None => {
                        slots.push(None);
                    },
                }
                depth += 1;
            } else {
                slots.push(None);
            }
            k += 1;
        }
        let r = Scope { slots };
        assert(r@ =~= bind(used@, stack@));
        r
    }

    /// The value that a letter is bound to, if it is bound.
    pub fn get(&self, c: char) -> (r: Option<&Value>)
        ensures
            match r {
                Some(v) => bound(self@, c) == Some(v@),
                None => bound(self@, c) is None,
            },
    {
        proof {
            use_type_invariant(self);
        }
        match slot(c) {
            Some(k) => match &self.slots[k] {
                Some(v) => Some(v),
                None => None,
            },
            None => None,
        }
    }
}

/// An inline function: a body and the arity inferred from it.
#[derive(Debug)]
pub struct Dfn {
    body: Vec<Token>,
    arity: usize,
    used: Vec<bool>,
}

impl Dfn {
    /// The tokens of the body.
    pub closed spec fn tokens(&self) -> Seq<Token> {
        self.body@
    }

    /// The number of arguments.
    pub closed spec fn spec_arity(&self) -> int {
        self.arity as int
    }

    /// The arity and the letters in use are the ones that the body gives,
    /// so they never change.
    #[verifier::type_invariant]
    closed spec fn inv(&self) -> bool {
        &&& infer_arity(self.body@, 0, self.body@.len() as int) == Ok::<int, FaultView>(
            self.arity as int,
        )
        &&& self.used@ == usage(argument_letters(self.body@, 0, self.body@.len() as int))
    }

    /// Makes an inline function of a body, inferring its arity. Fails with
    /// an arity error where the body has none.
    pub fn new(body: Vec<Token>) -> (r: Result<Dfn, Fault>)
        ensures
            match r {
                Ok(d) => d.tokens() == body@ && infer_arity(body@, 0, body@.len() as int) == Ok::<
                    int,
                    FaultView,
                >(d.spec_arity()),
                Err(f) => infer_arity(body@, 0, body@.len() as int) == Err::<int, FaultView>(f@),
            },
    {
        match infer(&body, 0, body.len()) {
            Ok((k, used)) => Ok(Dfn { body, arity: k, used }),
            Err(f) => Err(f),
        }
    }

    /// The number of arguments: between 1 and [`MAX_ARITY`].
    pub fn arity(&self) -> (k: usize)
        ensures
            k == self.spec_arity(),
            infer_arity(self.tokens(), 0, self.tokens().len() as int) == Ok::<int, FaultView>(
                k as int,
            ),
            1 <= k <= MAX_ARITY,
    {
        proof {
            use_type_invariant(self);
            lemma_count_nonnegative(
                usage(argument_letters(self.tokens(), 0, self.tokens().len() as int)),
                MAX_ARITY as int,
            );
        }
        self.arity
    }

    /// The tokens of the body.
    pub fn body(&self) -> (b: &Vec<Token>)
        ensures
            b@ == self.tokens(),
    {
        &self.body
    }
}

/// Letters that all have a place among the supported ones hold no
/// unsupported letter.
pub proof fn lemma_no_excess(letters: Seq<char>, from: int)
    requires
        0 <= from,
        forall|i: int| 0 <= i < letters.len() ==> spec_slot(#[trigger] letters[i]) is Some,
    ensures
        first_excess(letters, from) is None,
    decreases letters.len() - from,
{
    if from < letters.len() {
        lemma_no_excess(letters, from + 1);
    }
}

/// A body that refers to exactly two distinct supported letters has arity
/// 2, however often it refers to each.
pub proof fn two_letters_give_arity_two(tokens: Seq<Token>, lo: int, hi: int, x: char, y: char)
    requires
        x != y,
        spec_slot(x) is Some,
        spec_slot(y) is Some,
        argument_letters(tokens, lo, hi).contains(x),
        argument_letters(tokens, lo, hi).contains(y),
        forall|i: int|
            0 <= i < argument_letters(tokens, lo, hi).len() ==> {
                ||| #[trigger] argument_letters(tokens, lo, hi)[i] == x
                ||| argument_letters(tokens, lo, hi)[i] == y
            },
    ensures
        infer_arity(tokens, lo, hi) == Ok::<int, FaultView>(2),
{
    let letters = argument_letters(tokens, lo, hi);
    lemma_no_excess(letters, 0);
    let used = usage(letters);
    assert forall|k: int| 0 <= k < MAX_ARITY implies used[k] == (letter_of(k) == x || letter_of(k)
        == y) by {
        if letters.contains(letter_of(k)) {
            let i = choose|i: int| 0 <= i < letters.len() && letters[i] == letter_of(k);
            assert(letters[i] == x || letters[i] == y);
        }
    }
    reveal_with_fuel(count_used, 5);
}

/// Of two letters in use, the one earlier in the alphabet is bound to the
/// value nearer the top of the stack.
pub proof fn earlier_letter_binds_shallower(used: Seq<bool>, j: int, k: int)
    requires
        0 <= j < k < MAX_ARITY,
        used[j],
        used[k],
    ensures
        0 <= count_used(used, j) < count_used(used, k),
{
    lemma_count_nonnegative(used, j);
    lemma_count_bounds(used, j + 1, k);
}

} // verus!
