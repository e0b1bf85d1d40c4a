//! The tokens of an expression, and what a name stands for.

use vstd::prelude::*;
use vstd::string::*;
use crate::primitive::{lookup, Primitive};

verus! {

/// The largest number of arguments an inline function can take: its
/// argument letters are `a`, `b`, `c` and `d`.
pub const MAX_ARITY: usize = 4;

/// One token of an expression.
#[derive(Clone, Debug)]
pub enum Token {
    /// A number literal.
    Number(i64),
    /// A character literal.
    Character(char),
    /// A string literal: a one-dimensional array of characters.
    Text(Vec<char>),
    /// A name: of a primitive or, as a single lower-case letter, of an
    /// argument of the inline function around it.
    Name(String),
    /// The start of an inline function's body.
    Open,
    /// The end of an inline function's body.
    Close,
}

/// What a name stands for.
#[derive(Clone, Copy, Debug, PartialEq, Eq, Structural)]
pub enum Word {
    /// An argument letter.
    Argument(char),
    /// A registered primitive.
    Primitive(Primitive),
    /// Nothing.
    Unknown,
}

/// Whether a name is a single lower-case letter.
pub open spec fn is_letter(name: Seq<char>) -> bool {
    name.len() == 1 && 'a' <= name[0] && name[0] <= 'z'
}

/// What a name stands for: every single lower-case letter is an argument
/// letter; any other name is looked up in the registry.
pub open spec fn classify_spec(name: Seq<char>) -> Word {
    if is_letter(name) {
        Word::Argument(name[0])
    } else {
        match lookup(name) {
            Some(p) => Word::Primitive(p),
            None => Word::Unknown,
        }
    }
}

/// Computes [`classify_spec`].
pub fn classify(name: &str) -> (w: Word)
    ensures
        w == classify_spec(name@),
{
    if name.unicode_len() == 1 {
        let c = name.get_char(0);
        if 'a' <= c && c <= 'z' {
            return Word::Argument(c);
        }
    }
    match Primitive::from_name(name) {
        Some(p) => Word::Primitive(p),
        None => Word::Unknown,
    }
}

/// The place of an argument letter among the supported ones: 0 for `a` up
/// to 3 for `d`; `None` for any other character.
pub open spec fn spec_slot(c: char) -> Option<usize> {
    if c == 'a' {
        Some(0)
    } else if c == 'b' {
        Some(1)
    } else if c == 'c' {
        Some(2)
    } else if c == 'd' {
        Some(3)
    } else {
        None
    }
}

/// Computes [`spec_slot`].
#[verifier::when_used_as_spec(spec_slot)]
pub fn slot(c: char) -> (k: Option<usize>)
    ensures
        k == spec_slot(c),
        k matches Some(i) ==> i < MAX_ARITY,
{
    if c == 'a' {
        Some(0)
    } else if c == 'b' {
        Some(1)
    } else if c == 'c' {
        Some(2)
    } else if c == 'd' {
        Some(3)
    } else {
        None
    }
}

/// The argument letter at a place: the inverse of [`spec_slot`].
pub open spec fn letter_of(k: int) -> char {
    if k == 0 {
        'a'
    } else if k == 1 {
        'b'
    } else if k == 2 {
        'c'
    } else {
        'd'
    }
}

} // verus!
