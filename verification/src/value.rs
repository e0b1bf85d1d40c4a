//! The array value model: flat arrays of one element kind, with a shape.

use vstd::prelude::*;
use std::sync::Arc;
use crate::fault::{Fault, FaultView};
use crate::shape::{lemma_volume_list, same_dims, shape_holds, volume};

verus! {

/// The kind shared by all elements of one array.
#[derive(Clone, Copy, Debug, PartialEq, Eq, Structural)]
pub enum Kind {
    Number,
    Character,
    Boxed,
    Function,
}

/// One element of an array. Boxes and functions are opaque handles, so an
/// array never holds another array.
#[derive(Clone, Copy, Debug, PartialEq, Eq, Structural)]
pub enum Element {
    Number(i64),
    Character(char),
    Boxed(u64),
    Function(u64),
}

impl Element {
    pub open spec fn spec_kind(&self) -> Kind {
        match self {
            Element::Number(_) => Kind::Number,
            Element::Character(_) => Kind::Character,
            Element::Boxed(_) => Kind::Boxed,
            Element::Function(_) => Kind::Function,
        }
    }

    pub open spec fn spec_of_char(c: char) -> Element {
        Element::Character(c)
    }

    /// The element that holds a character.
    #[verifier::when_used_as_spec(spec_of_char)]
    pub fn of_char(c: char) -> (e: Element)
        ensures
            e == Element::Character(c),
    {
        Element::Character(c)
    }

    /// The kind of this element.
    #[verifier::when_used_as_spec(spec_kind)]
    pub fn kind(&self) -> (k: Kind)
        ensures
            k == self.spec_kind(),
    {
        match self {
            Element::Number(_) => Kind::Number,
            Element::Character(_) => Kind::Character,
            Element::Boxed(_) => Kind::Boxed,
            Element::Function(_) => Kind::Function,
        }
    }
}

/// The mathematical value of an array: its element kind, its shape, and its
/// elements in row-major order.
pub struct ValueView {
    pub kind: Kind,
    pub shape: Seq<usize>,
    pub cells: Seq<Element>,
}

impl ValueView {
    /// Every element has the array's kind, and there are as many elements as
    /// the shape asks for.
    pub open spec fn well_formed(self) -> bool {
        &&& self.cells.len() == volume(self.shape)
        &&& forall|i: int|
            0 <= i < self.cells.len() ==> (#[trigger] self.cells[i]).spec_kind() == self.kind
    }

    /// The array of no dimensions that holds one element.
    pub open spec fn scalar(e: Element) -> ValueView {
        ValueView { kind: e.spec_kind(), shape: Seq::empty(), cells: seq![e] }
    }

    /// The array of one dimension that holds the given elements.
    pub open spec fn list(kind: Kind, cells: Seq<Element>) -> ValueView {
        ValueView { kind, shape: seq![cells.len() as usize], cells }
    }

    pub open spec fn is_scalar(self) -> bool {
        self.shape.len() == 0
    }
}

/// The scalar of a number.
pub open spec fn number_view(n: i64) -> ValueView {
    ValueView::scalar(Element::Number(n))
}

/// The scalar of a character.
pub open spec fn character_view(c: char) -> ValueView {
    ValueView::scalar(Element::Character(c))
}

/// The one-dimensional array of the characters of a text.
pub open spec fn text_view(chars: Seq<char>) -> ValueView {
    ValueView::list(Kind::Character, Seq::new(chars.len(), |i: int| Element::spec_of_char(chars[i])))
}

/// The one-dimensional array of the given numbers.
pub open spec fn numbers_view(items: Seq<i64>) -> ValueView {
    ValueView::list(Kind::Number, Seq::new(items.len(), |i: int| Element::Number(items[i])))
}

/// The index of the first element at or after `from` whose kind is not
/// `kind`, or the number of elements where there is none.
pub open spec fn first_foreign(cells: Seq<Element>, kind: Kind, from: int) -> int
    decreases cells.len() - from,
{
    if from < 0 || from >= cells.len() || cells[from].spec_kind() != kind {
        from
    } else {
        first_foreign(cells, kind, from + 1)
    }
}

/// What building an array from parts gives: the array where the parts fit,
/// a shape mismatch where the element count is not the shape's volume, and
/// else a type mismatch that names the kind of the first foreign element.
pub open spec fn checked_parts(kind: Kind, shape: Seq<usize>, cells: Seq<Element>) -> Result<
    ValueView,
    FaultView,
> {
    if volume(shape) != cells.len() {
        Err(
            FaultView::ShapeMismatch {
                expected_shape: shape,
                actual_shape: seq![cells.len() as usize],
            },
        )
    } else if first_foreign(cells, kind, 0) < cells.len() {
        Err(
            FaultView::TypeMismatch {
                expected: kind,
                actual: cells[first_foreign(cells, kind, 0)].spec_kind(),
            },
        )
    } else {
        Ok(ValueView { kind, shape, cells })
    }
}

/// What an array holds. It is built once and never changed.
#[derive(Debug)]
struct Parts {
    kind: Kind,
    shape: Vec<usize>,
    cells: Vec<Element>,
}

/// A second handle to the same allocation.
///
/// This is `Arc::clone` of the standard library: it raises the reference
/// count and returns a pointer to the allocation that `data` points to, so
/// what the result holds is what `data` holds.
#[verifier::external_body]
fn share(data: &Arc<Parts>) -> (r: Arc<Parts>)
    ensures
        *r == **data,
{
    Arc::clone(data)
}

/// A flat array of elements of one kind. A scalar is the array of no
/// dimensions.
///
/// An array is never changed once built. Its content is reference-counted:
/// a copy is a new handle to the same content, which is freed when its last
/// holder lets go of it. Arrays can be read from several threads at once.
#[derive(Debug)]
pub struct Value {
    data: Arc<Parts>,
}

impl View for Value {
    type V = ValueView;

    closed spec fn view(&self) -> ValueView {
        ValueView { kind: self.data.kind, shape: self.data.shape@, cells: self.data.cells@ }
    }
}

impl Value {
    /// What holds of every array: see [`ValueView::well_formed`].
    #[verifier::type_invariant]
    pub open spec fn inv(&self) -> bool {
        self@.well_formed()
    }

    /// Builds an array from its parts, after checking that they fit.
    pub fn new(kind: Kind, shape: Vec<usize>, cells: Vec<Element>) -> (r: Result<Value, Fault>)
        ensures
            match r {
                Ok(v) => checked_parts(kind, shape@, cells@) == Ok::<ValueView, FaultView>(v@),
                Err(f) => checked_parts(kind, shape@, cells@) == Err::<ValueView, FaultView>(f@),
            },
            r is Ok <==> (ValueView { kind, shape: shape@, cells: cells@ }).well_formed(),
    {
        if !shape_holds(&shape, cells.len()) {
            let mut actual: Vec<usize> = Vec::new();
            actual.push(cells.len());
            assert(actual@ =~= seq![cells@.len() as usize]);
            return Err(Fault::ShapeMismatch { expected_shape: shape, actual_shape: actual });
        }
        let mut i: usize = 0;
        while i < cells.len()
            invariant
                0 <= i <= cells.len(),
                forall|j: int| 0 <= j < i ==> (#[trigger] cells@[j]).spec_kind() == kind,
                first_foreign(cells@, kind, 0) == first_foreign(cells@, kind, i as int),
                volume(shape@) == cells@.len(),
            decreases cells.len() - i,
        {
            let k = cells[i].kind();
            if k != kind {
                return Err(Fault::TypeMismatch { expected: kind, actual: k });
            }
            i += 1;
        }
        Ok(Value { data: Arc::new(Parts { kind, shape, cells }) })
    }

    /// Builds an array from parts that are known to fit.
    pub(crate) fn assemble(kind: Kind, shape: Vec<usize>, cells: Vec<Element>) -> (r: Value)
        requires
            (ValueView { kind, shape: shape@, cells: cells@ }).well_formed(),
        ensures
            r@ == (ValueView { kind, shape: shape@, cells: cells@ }),
    {
        Value { data: Arc::new(Parts { kind, shape, cells }) }
    }

    /// The scalar that holds one element.
    pub fn scalar(e: Element) -> (r: Value)
        ensures
            r@ == ValueView::scalar(e),
    {
        let shape: Vec<usize> = Vec::new();
        let mut cells: Vec<Element> = Vec::new();
        cells.push(e);
        assert(cells@ =~= seq![e]);
        assert(shape@ =~= Seq::<usize>::empty());
        Value { data: Arc::new(Parts { kind: e.kind(), shape, cells }) }
    }

    /// The scalar of a number.
    pub fn number(n: i64) -> (r: Value)
        ensures
            r@ == number_view(n),
    {
        Value::scalar(Element::Number(n))
    }

    /// The scalar of a character.
    pub fn character(c: char) -> (r: Value)
        ensures
            r@ == character_view(c),
    {
        Value::scalar(Element::Character(c))
    }

    /// The one-dimensional array of the characters of a text.
    pub fn text(glyphs: &Vec<char>) -> (r: Value)
        ensures
            r@ == text_view(glyphs@),
    {
        let mut cells: Vec<Element> = Vec::new();
        let mut i: usize = 0;
        while i < glyphs.len()
            invariant
                0 <= i <= glyphs.len(),
                cells@.len() == i,
                forall|j: int| 0 <= j < i ==> cells@[j] == Element::spec_of_char(glyphs@[j]),
            decreases glyphs.len() - i,
        {
            cells.push(Element::of_char(glyphs[i]));
            i += 1;
        }
        assert(cells@ =~= Seq::new(glyphs@.len(), |i: int| Element::spec_of_char(glyphs@[i])));
        let mut shape: Vec<usize> = Vec::new();
        shape.push(glyphs.len());
        assert(shape@ =~= seq![glyphs@.len() as usize]);
        proof {
            lemma_volume_list(glyphs.len());
        }
        Value { data: Arc::new(Parts { kind: Kind::Character, shape, cells }) }
    }

    /// The one-dimensional array of the given numbers.
    pub fn numbers(items: &Vec<i64>) -> (r: Value)
        ensures
            r@ == numbers_view(items@),
    {
        let mut cells: Vec<Element> = Vec::new();
        let mut i: usize = 0;
        while i < items.len()
            invariant
                0 <= i <= items.len(),
                cells@.len() == i,
                forall|j: int| 0 <= j < i ==> cells@[j] == Element::Number(items@[j]),
            decreases items.len() - i,
        {
            cells.push(Element::Number(items[i]));
            i += 1;
        }
        assert(cells@ =~= Seq::new(items@.len(), |i: int| Element::Number(items@[i])));
        let mut shape: Vec<usize> = Vec::new();
        shape.push(items.len());
        assert(shape@ =~= seq![items@.len() as usize]);
        proof {
            lemma_volume_list(items.len());
        }
        Value { data: Arc::new(Parts { kind: Kind::Number, shape, cells }) }
    }

    /// The kind of the array's elements.
    pub fn kind(&self) -> (k: Kind)
        ensures
            k == self@.kind,
    {
        self.data.kind
    }

    /// The array's dimensions, outermost first.
    pub fn shape(&self) -> (s: &Vec<usize>)
        ensures
            s@ == self@.shape,
            self@.well_formed(),
    {
        proof {
            use_type_invariant(self);
        }
        &self.data.shape
    }

    /// The array's elements in row-major order.
    pub fn cells(&self) -> (c: &Vec<Element>)
        ensures
            c@ == self@.cells,
            self@.well_formed(),
    {
        proof {
            use_type_invariant(self);
        }
        &self.data.cells
    }

    /// The number of dimensions; 0 for a scalar.
    pub fn rank(&self) -> (n: usize)
        ensures
            n == self@.shape.len(),
    {
        self.data.shape.len()
    }

    /// Whether the array has no dimensions.
    pub fn is_scalar(&self) -> (b: bool)
        ensures
            b == self@.is_scalar(),
    {
        self.data.shape.len() == 0
    }

    /// The number of elements, which is the product of the dimensions.
    pub fn len(&self) -> (n: usize)
        ensures
            n == self@.cells.len(),
            n == volume(self@.shape),
    {
        proof {
            use_type_invariant(self);
        }
        self.data.cells.len()
    }
}

impl Clone for Value {
    /// A new handle to the same content: an array equal to this one in
    /// kind, shape and content, made without copying any element.
    fn clone(&self) -> (r: Self)
        ensures
            r@ == self@,
    {
        proof {
            use_type_invariant(self);
        }
        Value { data: share(&self.data) }
    }
}

impl PartialEq for Value {
    /// Whether two arrays are equal in kind, shape and content.
    fn eq(&self, other: &Value) -> (r: bool) {
        if self.data.kind != other.data.kind {
            return false;
        }
        if self.data.shape.len() != other.data.shape.len() || self.data.cells.len() != other.data.cells.len() {
            return false;
        }
        if !same_dims(&self.data.shape, &other.data.shape) {
            return false;
        }
        let mut i: usize = 0;
        while i < self.data.cells.len()
            invariant
                0 <= i <= self.data.cells.len(),
                self.data.cells.len() == other.data.cells.len(),
                self.data.cells@.take(i as int) =~= other.data.cells@.take(i as int),
            decreases self.data.cells.len() - i,
        {
            if self.data.cells[i] != other.data.cells[i] {
                return false;
            }
            assert(self.data.cells@.take(i + 1) =~= self.data.cells@.take(i as int).push(
                self.data.cells@[i as int],
            ));
            assert(other.data.cells@.take(i + 1) =~= other.data.cells@.take(i as int).push(
                other.data.cells@[i as int],
            ));
            i += 1;
        }
        assert(self.data.cells@.take(i as int) =~= self.data.cells@);
        assert(other.data.cells@.take(i as int) =~= other.data.cells@);
        true
    }
}

impl vstd::std_specs::cmp::PartialEqSpecImpl for Value {
    open spec fn obeys_eq_spec() -> bool {
        true
    }

    open spec fn eq_spec(&self, other: &Value) -> bool {
        self@ == other@
    }
}

/// The mathematical values of a list of arrays, in the same order.
pub open spec fn views(values: Seq<Value>) -> Seq<ValueView> {
    Seq::new(values.len(), |i: int| values[i]@)
}

} // verus!
