//! Evaluation core of a stack-based array language.
//!
//! Values are flat arrays of one element kind ([`value`], [`shape`]). They
//! pass between operations on a stack and nowhere else ([`stack`]). Three
//! combinators shuffle the top of the stack ([`combinator`]); a few
//! arithmetic primitives work on it element by element ([`arith`],
//! [`primitive`]). An inline function names up to four values from the top
//! of the stack by the letters `a` to `d` and may use them anywhere in its
//! body ([`group`], [`dfn`]); there are no other variables. An expression is
//! a flat sequence of tokens ([`token`]) that is carried out from right to
//! left ([`eval`]).
//!
//! Conventions, the same everywhere:
//!
//! - A stack is written and returned bottom first; the last value is the top.
//! - An expression runs from its right end to its left, so `sub 2 5` pushes
//!   5, then 2, and leaves 3.
//! - The letters in use are bound in alphabetical order from the top down:
//!   the earliest letter names the top value.
//! - Numbers are 64-bit integers, and arithmetic stays at the nearest bound
//!   where a result would leave their range.
//! - Evaluation either succeeds or ends with one error ([`fault`]); a
//!   failed operation leaves the stack it was applied to as it was.
//!
//! All executable code is verified against the mathematical definitions
//! that stand beside it. The one exception is the sharing of array content
//! between copies of a value, which is the standard library's.

pub mod arith;
pub mod combinator;
pub mod derived;
pub mod dfn;
pub mod eval;
pub mod fault;
pub mod group;
pub mod primitive;
pub mod shape;
pub mod stack;
pub mod token;
pub mod value;
