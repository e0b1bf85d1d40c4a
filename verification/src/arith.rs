//! Arithmetic on numbers, and its extension to whole arrays element by
//! element. Numbers are 64-bit integers; a result beyond their range stays
//! at the nearest bound, so arithmetic never fails on its own.

use vstd::prelude::*;
use crate::fault::{Fault, FaultView};
use crate::shape::{copy_dims, same_dims, volume};
use crate::value::{Element, Kind, Value, ValueView};

verus! {

/// The number nearest to `x` that fits in 64 bits.
pub open spec fn clamp(x: int) -> i64 {
    if x > i64::MAX {
        i64::MAX
    } else if x < i64::MIN {
        i64::MIN
    } else {
        x as i64
    }
}

/// The operations that take two numbers.
#[derive(Clone, Copy, Debug, PartialEq, Eq, Structural)]
pub enum Dyadic {
    Add,
    Sub,
    Mul,
}

/// The result of an operation on `x`, the deeper operand, and `y`, the one
/// that was on top: `x + y`, `x - y` or `x * y`, kept within range.
pub open spec fn combine(op: Dyadic, x: i64, y: i64) -> i64 {
    match op {
        Dyadic::Add => clamp(x + y),
        Dyadic::Sub => clamp(x - y),
        Dyadic::Mul => clamp(x * y),
    }
}

/// The sign of a product follows from the signs of its factors.
proof fn lemma_product_sign(x: int, y: int)
    ensures
        (x > 0 && y > 0) || (x <= 0 && y <= 0) ==> x * y >= 0,
        (x > 0 && y <= 0) || (x <= 0 && y > 0) ==> x * y <= 0,
{
    assert((x > 0 && y > 0) || (x <= 0 && y <= 0) ==> x * y >= 0) by (nonlinear_arith);
    assert((x > 0 && y <= 0) || (x <= 0 && y > 0) ==> x * y <= 0) by (nonlinear_arith);
}

/// Computes [`combine`].
pub fn saturating(op: Dyadic, x: i64, y: i64) -> (r: i64)
    ensures
        r == combine(op, x, y),
{
    match op {
        Dyadic::Add => match x.checked_add(y) {
            Some(v) => v,
            None => if y > 0 {
                i64::MAX
            } else {
                i64::MIN
            },
        },
        Dyadic::Sub => match x.checked_sub(y) {
            Some(v) => v,
            None => if y < 0 {
                i64::MAX
            } else {
                i64::MIN
            },
        },
        Dyadic::Mul => match x.checked_mul(y) {
            Some(v) => v,
            None => {
                proof {
                    lemma_product_sign(x as int, y as int);
                }
                if (x > 0) == (y > 0) {
                    i64::MAX
                } else {
                    i64::MIN
                }
            },
        },
    }
}

/// The negation of `x`, kept within range.
pub fn negated(x: i64) -> (r: i64)
    ensures
        r == clamp(-x),
{
    if x == i64::MIN {
        i64::MAX
    } else {
        -x
    }
}

/// The number that an element holds; 0 for an element of another kind.
pub open spec fn number_of(e: Element) -> i64 {
    match e {
        Element::Number(n) => n,
        _ => 0,
    }
}

/// Reads [`number_of`] the element at `i`.
fn number_at(cells: &Vec<Element>, i: usize) -> (r: i64)
    requires
        i < cells@.len(),
    ensures
        r == number_of(cells@[i as int]),
{
    match cells[i] {
        Element::Number(n) => n,
        _ => 0,
    }
}

/// Where the operand `v` is read for the result's element `i`: a scalar
/// gives its one element to every place.
pub open spec fn pick(v: ValueView, i: int) -> int {
    if v.is_scalar() {
        0
    } else {
        i
    }
}

/// Whether two shapes can meet in an element-wise operation: they are the
/// same, or one of them is a scalar's.
pub open spec fn shapes_agree(a: ValueView, b: ValueView) -> bool {
    a.shape == b.shape || a.is_scalar() || b.is_scalar()
}

/// An operation on two arrays, element by element. `a` is the deeper
/// operand and `b` the one that was on top. Both must hold numbers (`b` is
/// looked at first), and their shapes must agree; the result has the shape
/// of the operand that is no scalar.
pub open spec fn pervade_spec(op: Dyadic, a: ValueView, b: ValueView) -> Result<
    ValueView,
    FaultView,
> {
    if b.kind != Kind::Number {
        Err(FaultView::TypeMismatch { expected: Kind::Number, actual: b.kind })
    } else if a.kind != Kind::Number {
        Err(FaultView::TypeMismatch { expected: Kind::Number, actual: a.kind })
    } else if !shapes_agree(a, b) {
        Err(FaultView::ShapeMismatch { expected_shape: a.shape, actual_shape: b.shape })
    } else {
        let wide = if a.is_scalar() {
            b
        } else {
            a
        };
        Ok(
            ValueView {
                kind: Kind::Number,
                shape: wide.shape,
                cells: Seq::new(
                    wide.cells.len(),
                    |i: int|
                        Element::Number(
                            combine(
                                op,
                                number_of(a.cells[pick(a, i)]),
                                number_of(b.cells[pick(b, i)]),
                            ),
                        ),
                ),
            },
        )
    }
}

/// Computes [`pervade_spec`].
pub fn pervade(op: Dyadic, a: &Value, b: &Value) -> (r: Result<Value, Fault>)
    ensures
        match r {
            Ok(v) => pervade_spec(op, a@, b@) == Ok::<ValueView, FaultView>(v@),
            Err(f) => pervade_spec(op, a@, b@) == Err::<ValueView, FaultView>(f@),
        },
{
    if b.kind() != Kind::Number {
        return Err(Fault::TypeMismatch { expected: Kind::Number, actual: b.kind() });
    }
    if a.kind() != Kind::Number {
        return Err(Fault::TypeMismatch { expected: Kind::Number, actual: a.kind() });
    }
    let a_scalar = a.is_scalar();
    let b_scalar = b.is_scalar();
    if !same_dims(a.shape(), b.shape()) && !a_scalar && !b_scalar {
        return Err(
            Fault::ShapeMismatch {
                expected_shape: copy_dims(a.shape()),
                actual_shape: copy_dims(b.shape()),
            },
        );
    }
    let xs = a.cells();
    let ys = b.cells();
    let wide = if a_scalar {
        b
    } else {
        a
    };
    let n = wide.len();
    assert(volume(Seq::<usize>::empty()) == 1);
    let mut cells: Vec<Element> = Vec::new();
    let mut i: usize = 0;
    while i < n
        invariant
            0 <= i <= n,
            xs@ == a@.cells,
            ys@ == b@.cells,
            a_scalar == a@.is_scalar(),
            b_scalar == b@.is_scalar(),
            a_scalar ==> xs@.len() == 1 && n == ys@.len(),
            !a_scalar ==> n == xs@.len(),
            b_scalar ==> ys@.len() == 1,
            !b_scalar ==> n == ys@.len(),
            cells@.len() == i,
            forall|j: int|
                0 <= j < i ==> cells@[j] == Element::Number(
                    combine(op, number_of(xs@[pick(a@, j)]), number_of(ys@[pick(b@, j)])),
                ),
        decreases n - i,
    {
        let x = number_at(
            xs,
            if a_scalar {
                0
            } else {
                i
            },
        );
        let y = number_at(
            ys,
            if b_scalar {
                0
            } else {
                i
            },
        );
        cells.push(Element::Number(saturating(op, x, y)));
        i += 1;
    }
    assert(cells@ =~= pervade_spec(op, a@, b@)->Ok_0.cells);
    Ok(Value::assemble(Kind::Number, copy_dims(wide.shape()), cells))
}

/// Negation of every element. The array must hold numbers; the result has
/// its shape.
pub open spec fn negate_spec(a: ValueView) -> Result<ValueView, FaultView> {
    if a.kind != Kind::Number {
        Err(FaultView::TypeMismatch { expected: Kind::Number, actual: a.kind })
    } else {
        Ok(
            ValueView {
                kind: Kind::Number,
                shape: a.shape,
                cells: Seq::new(
                    a.cells.len(),
                    |i: int| Element::Number(clamp(-number_of(a.cells[i]))),
                ),
            },
        )
    }
}

/// Computes [`negate_spec`].
pub fn negate(a: &Value) -> (r: Result<Value, Fault>)
    ensures
        match r {
            Ok(v) => negate_spec(a@) == Ok::<ValueView, FaultView>(v@),
            Err(f) => negate_spec(a@) == Err::<ValueView, FaultView>(f@),
        },
{
    if a.kind() != Kind::Number {
        return Err(Fault::TypeMismatch { expected: Kind::Number, actual: a.kind() });
    }
    let xs = a.cells();
    let mut cells: Vec<Element> = Vec::new();
    let mut i: usize = 0;
    while i < xs.len()
        invariant
            0 <= i <= xs.len(),
            xs@ == a@.cells,
            cells@.len() == i,
            forall|j: int|
                0 <= j < i ==> cells@[j] == Element::Number(clamp(-number_of(xs@[j]))),
        decreases xs.len() - i,
    {
        cells.push(Element::Number(negated(number_at(xs, i))));
        i += 1;
    }
    assert(cells@ =~= negate_spec(a@)->Ok_0.cells);
    Ok(Value::assemble(Kind::Number, copy_dims(a.shape()), cells))
}

} // verus!
