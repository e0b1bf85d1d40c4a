//! Grouping: where the body of an inline function starts, and which
//! argument letters a body refers to.

use vstd::prelude::*;
use vstd::string::*;
use crate::token::{is_letter, letter_of, slot, spec_slot, Token, MAX_ARITY};

verus! {

/// The index of the `Open` that matches a `Close`, found by going left from
/// `i` (exclusive) down to `lo` with `depth` bodies still open; `None` where
/// the tokens run out first.
pub open spec fn match_open(tokens: Seq<Token>, lo: int, i: int, depth: int) -> Option<int>
    decreases i - lo,
{
    if i <= lo {
        None
    } else if tokens[i - 1] is Close {
        match_open(tokens, lo, i - 1, depth + 1)
    } else if tokens[i - 1] is Open {
        if depth <= 1 {
            Some(i - 1)
        } else {
            match_open(tokens, lo, i - 1, depth - 1)
        }
    } else {
        match_open(tokens, lo, i - 1, depth)
    }
}

/// A matching `Open` lies within the range that was searched.
pub proof fn lemma_match_open_bounds(tokens: Seq<Token>, lo: int, i: int, depth: int)
    ensures
        match_open(tokens, lo, i, depth) matches Some(open) ==> lo <= open < i
            && tokens[open] is Open,
    decreases i - lo,
{
    if i > lo {
        if tokens[i - 1] is Close {
            lemma_match_open_bounds(tokens, lo, i - 1, depth + 1);
        } else if tokens[i - 1] is Open {
            if depth > 1 {
                lemma_match_open_bounds(tokens, lo, i - 1, depth - 1);
            }
        } else {
            lemma_match_open_bounds(tokens, lo, i - 1, depth);
        }
    }
}

/// Finds the `Open` that matches the `Close` at `close`, not going below `lo`.
pub(crate) fn find_open(tokens: &Vec<Token>, lo: usize, close: usize) -> (r: Option<usize>)
    requires
        lo <= close < tokens.len(),
    ensures
        match r {
            Some(open) => match_open(tokens@, lo as int, close as int, 1) == Some(open as int)
                && lo <= open < close,
            None => match_open(tokens@, lo as int, close as int, 1) is None,
        },
{
    let mut i: usize = close;
    let mut depth: usize = 1;
    while i > lo
        invariant
            lo <= i <= close < tokens.len(),
            1 <= depth <= 1 + (close - i),
            match_open(tokens@, lo as int, close as int, 1) == match_open(
                tokens@,
                lo as int,
                i as int,
                depth as int,
            ),
        decreases i - lo,
    {
        i -= 1;
        match &tokens[i] {
            Token::Close => {
                depth += 1;
            },
            Token::Open => {
                if depth == 1 {
                    return Some(i);
                }
                depth -= 1;
            },
            _ => {},
        }
    }
    None
}

/// The argument letters that a body refers to, from its right end to its
/// left. Letters inside a nested body belong to that body and are left out.
pub open spec fn argument_letters(tokens: Seq<Token>, lo: int, hi: int) -> Seq<char>
    decreases hi - lo,
{
    if hi <= lo {
        Seq::empty()
    } else {
        let at = hi - 1;
        match tokens[at] {
            Token::Close => match match_open(tokens, lo, at, 1) {
                Some(open) => {
                    proof {
                        lemma_match_open_bounds(tokens, lo, at, 1);
                    }
                    argument_letters(tokens, lo, open)
                },
                None => argument_letters(tokens, lo, at),
            },
            Token::Name(name) => if is_letter(name@) {
                seq![name@[0]] + argument_letters(tokens, lo, at)
            } else {
                argument_letters(tokens, lo, at)
            },
            _ => argument_letters(tokens, lo, at),
        }
    }
}

/// The first of the letters, from `from` on, that is not a supported
/// argument letter.
pub open spec fn first_excess(letters: Seq<char>, from: int) -> Option<char>
    decreases letters.len() - from,
{
    if from < 0 || from >= letters.len() {
        None
    } else if spec_slot(letters[from]) is None {
        Some(letters[from])
    } else {
        first_excess(letters, from + 1)
    }
}

/// Which of the supported argument letters occur among the letters: one
/// flag for each of `a` to `d`.
pub open spec fn usage(letters: Seq<char>) -> Seq<bool> {
    Seq::new(MAX_ARITY as nat, |k: int| letters.contains(letter_of(k)))
}

/// How many of the first `k` flags are set.
pub open spec fn count_used(used: Seq<bool>, k: int) -> int
    decreases k,
{
    if k <= 0 {
        0
    } else {
        count_used(used, k - 1) + if used[k - 1] {
            1int
        } else {
            0int
        }
    }
}

/// One more letter at the end changes the first unsupported letter only
/// where there was none.
pub proof fn lemma_first_excess_push(letters: Seq<char>, c: char, from: int)
    requires
        0 <= from <= letters.len(),
    ensures
        first_excess(letters.push(c), from) == (match first_excess(letters, from) {
            Some(x) => Some(x),
            None => if spec_slot(c) is None {
                Some(c)
            } else {
                None
            },
        }),
    decreases letters.len() - from,
{
    let more = letters.push(c);
    if from < letters.len() {
        assert(more[from] == letters[from]);
        if spec_slot(letters[from]) is Some {
            lemma_first_excess_push(letters, c, from + 1);
        }
    } else {
        assert(more[from] == c);
        assert(first_excess(more, from + 1) is None);
    }
}

/// Reads a body once and reports which supported argument letters it
/// refers to, and the first letter it refers to that is not supported.
pub(crate) fn scan_letters(tokens: &Vec<Token>, lo: usize, hi: usize) -> (r: (Vec<bool>, Option<char>))
    requires
        lo <= hi <= tokens.len(),
    ensures
        r.0@ == usage(argument_letters(tokens@, lo as int, hi as int)),
        r.1 == first_excess(argument_letters(tokens@, lo as int, hi as int), 0),
{
    let mut used: Vec<bool> = Vec::new();
    used.push(false);
    used.push(false);
    used.push(false);
    used.push(false);
    let mut excess: Option<char> = None;
    let mut cur: usize = hi;
    let ghost all = argument_letters(tokens@, lo as int, hi as int);
    let ghost mut seen: Seq<char> = Seq::empty();
    assert(seen + argument_letters(tokens@, lo as int, cur as int) =~= all);
    while cur > lo
        invariant
            lo <= cur <= hi <= tokens.len(),
            all == argument_letters(tokens@, lo as int, hi as int),
            all == seen + argument_letters(tokens@, lo as int, cur as int),
            used@.len() == MAX_ARITY,
            forall|k: int| 0 <= k < MAX_ARITY ==> used@[k] == seen.contains(letter_of(k)),
            excess == first_excess(seen, 0),
        decreases cur - lo,
    {
        let at = cur - 1;
        let ghost rest = argument_letters(tokens@, lo as int, at as int);
        match &tokens[at] {
            Token::Close => {
                match find_open(tokens, lo, at) {
                    Some(open) => {
                        cur = open;
                    },
                    None => {
                        cur = at;
                    },
                }
            },
            Token::Name(name) => {
                let text = name.as_str();
                let mut letter: Option<char> = None;
                if text.unicode_len() == 1 {
                    let c = text.get_char(0);
                    if 'a' <= c && c <= 'z' {
                        letter = Some(c);
                    }
                }
                match letter {
                    Some(c) => {
                        proof {
                            lemma_first_excess_push(seen, c, 0);
                            assert forall|k: int| 0 <= k < MAX_ARITY implies seen.push(c).contains(
                                letter_of(k),
                            ) == (seen.contains(letter_of(k)) || letter_of(k) == c) by {
                                let x = letter_of(k);
                                if seen.contains(x) {
                                    let i = choose|i: int| 0 <= i < seen.len() && seen[i] == x;
                                    assert(seen.push(c)[i] == x);
                                }
                                if x == c {
                                    assert(seen.push(c)[seen.len() as int] == x);
                                }
                            }
                            assert(seen.push(c) + rest =~= seen + (seq![c] + rest));
                            seen = seen.push(c);
                        }
                        match slot(c) {
                            Some(k) => {
                                used.set(k, true);
                            },
                            None => {
                                if excess.is_none() {
                                    excess = Some(c);
                                }
                            },
                        }
                        cur = at;
                    },
                    None => {
                        cur = at;
                    },
                }
            },
            _ => {
                cur = at;
            },
        }
    }
    assert(seen =~= all);
    assert(used@ =~= usage(all));
    (used, excess)
}

/// Counts the flags that are set.
pub(crate) fn count_flags(used: &Vec<bool>) -> (n: usize)
    requires
        used@.len() == MAX_ARITY,
    ensures
        n == count_used(used@, MAX_ARITY as int),
        n <= MAX_ARITY,
{
    let mut n: usize = 0;
    let mut k: usize = 0;
    while k < MAX_ARITY
        invariant
            0 <= k <= MAX_ARITY,
            used@.len() == MAX_ARITY,
            n == count_used(used@, k as int),
            n <= k,
        decreases MAX_ARITY - k,
    {
        if used[k] {
            n += 1;
        }
        k += 1;
    }
    n
}

} // verus!
