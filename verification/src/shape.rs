//! Shapes: lists of dimensions, and how many elements they call for.

use vstd::prelude::*;

verus! {

/// The number of elements that an array of the given shape holds: the
/// product of its dimensions, which is 1 for the empty shape of a scalar.
pub open spec fn volume(shape: Seq<usize>) -> nat
    decreases shape.len(),
{
    if shape.len() == 0 {
        1
    } else {
        volume(shape.drop_last()) * (shape.last() as nat)
    }
}

/// A dimension of size zero makes the volume zero.
pub proof fn lemma_volume_zero(shape: Seq<usize>, j: int)
    requires
        0 <= j < shape.len(),
        shape[j] == 0,
    ensures
        volume(shape) == 0,
    decreases shape.len(),
{
    if j < shape.len() - 1 {
        lemma_volume_zero(shape.drop_last(), j);
        assert(volume(shape.drop_last()) * (shape.last() as nat) == 0) by (nonlinear_arith)
            requires
                volume(shape.drop_last()) == 0,
        ;
    } else {
        assert(volume(shape.drop_last()) * (shape.last() as nat) == 0) by (nonlinear_arith)
            requires
                shape.last() == 0,
        ;
    }
}

/// With no dimension of size zero, the volume of a prefix is at least 1 and
/// never exceeds the volume of the whole shape.
pub proof fn lemma_volume_grows(shape: Seq<usize>, i: int)
    requires
        0 <= i <= shape.len(),
        forall|j: int| 0 <= j < shape.len() ==> shape[j] >= 1,
    ensures
        1 <= volume(shape.take(i)) <= volume(shape),
    decreases shape.len() - i,
{
    if i == shape.len() {
        assert(shape.take(i) =~= shape);
        lemma_volume_positive(shape);
    } else {
        lemma_volume_grows(shape, i + 1);
        lemma_volume_step(shape, i);
        let p = volume(shape.take(i));
        let d = shape[i] as nat;
        assert(p <= p * d) by (nonlinear_arith)
            requires
                d >= 1,
        ;
        lemma_volume_positive(shape.take(i));
    }
}

/// With no dimension of size zero, the volume is at least 1.
pub proof fn lemma_volume_positive(shape: Seq<usize>)
    requires
        forall|j: int| 0 <= j < shape.len() ==> shape[j] >= 1,
    ensures
        volume(shape) >= 1,
    decreases shape.len(),
{
    if shape.len() > 0 {
        lemma_volume_positive(shape.drop_last());
        let p = volume(shape.drop_last());
        let d = shape.last() as nat;
        assert(p * d >= 1) by (nonlinear_arith)
            requires
                p >= 1,
                d >= 1,
        ;
    }
}

/// Taking one more dimension multiplies the volume by it.
pub proof fn lemma_volume_step(shape: Seq<usize>, i: int)
    requires
        0 <= i < shape.len(),
    ensures
        volume(shape.take(i + 1)) == volume(shape.take(i)) * (shape[i] as nat),
{
    assert(shape.take(i + 1).drop_last() =~= shape.take(i));
}

/// Whether an array of the given shape holds exactly `count` elements. The
/// product is never formed beyond `count`, so it cannot overflow.
pub fn shape_holds(shape: &Vec<usize>, count: usize) -> (r: bool)
    ensures
        r == (volume(shape@) == count),
{
    let mut i: usize = 0;
    while i < shape.len()
        invariant
            0 <= i <= shape.len(),
            forall|j: int| 0 <= j < i ==> shape@[j] >= 1,
        decreases shape.len() - i,
    {
        if shape[i] == 0 {
            proof {
                lemma_volume_zero(shape@, i as int);
            }
            return count == 0;
        }
        i += 1;
    }
    let mut product: usize = 1;
    let mut i: usize = 0;
    while i < shape.len()
        invariant
            0 <= i <= shape.len(),
            forall|j: int| 0 <= j < shape.len() ==> shape@[j] >= 1,
            product == volume(shape@.take(i as int)),
        decreases shape.len() - i,
    {
        let d = shape[i];
        proof {
            lemma_volume_step(shape@, i as int);
            lemma_volume_grows(shape@, i + 1);
        }
        if product > count / d {
            assert(product * d > count) by (nonlinear_arith)
                requires
                    product > count / d,
                    d >= 1,
            ;
            return false;
        }
        assert(product * d <= count) by (nonlinear_arith)
            requires
                product <= count / d,
                d >= 1,
        ;
        product = product * d;
        i += 1;
    }
    assert(shape@.take(i as int) =~= shape@);
    product == count
}

/// The volume of a one-dimensional shape is its only dimension.
pub proof fn lemma_volume_list(n: usize)
    ensures
        volume(seq![n]) == n,
{
    let s = seq![n];
    assert(s.len() == 1 && s.last() == n);
    assert(s.drop_last() =~= Seq::<usize>::empty());
    assert(volume(s.drop_last()) == 1);
    assert(volume(s) == volume(s.drop_last()) * (s.last() as nat));
}

/// A copy of a list of dimensions.
pub fn copy_dims(dims: &Vec<usize>) -> (r: Vec<usize>)
    ensures
        r@ == dims@,
{
    let mut out: Vec<usize> = Vec::new();
    let mut i: usize = 0;
    while i < dims.len()
        invariant
            0 <= i <= dims.len(),
            out@ =~= dims@.take(i as int),
        decreases dims.len() - i,
    {
        out.push(dims[i]);
        assert(dims@.take(i + 1) =~= dims@.take(i as int).push(dims@[i as int]));
        i += 1;
    }
    assert(dims@.take(i as int) =~= dims@);
    out
}

/// Whether two lists of dimensions are the same.
pub fn same_dims(a: &Vec<usize>, b: &Vec<usize>) -> (r: bool)
    ensures
        r == (a@ == b@),
{
    if a.len() != b.len() {
        return false;
    }
    let mut i: usize = 0;
    while i < a.len()
        invariant
            0 <= i <= a.len(),
            a.len() == b.len(),
            forall|j: int| 0 <= j < i ==> a@[j] == b@[j],
        decreases a.len() - i,
    {
        if a[i] != b[i] {
            return false;
        }
        i += 1;
    }
    assert(a@ =~= b@);
    true
}

} // verus!
