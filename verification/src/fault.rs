//! What can go wrong during an evaluation, and how it is reported.

use vstd::prelude::*;
use crate::value::Kind;
use crate::primitive::Primitive;
use crate::shape::copy_dims;

verus! {

/// The five kinds of evaluation failure.
#[derive(Clone, Copy, Debug, PartialEq, Eq, Structural)]
pub enum ErrorKind {
    StackUnderflow,
    TypeMismatch,
    ShapeMismatch,
    ArityError,
    UnknownPrimitive,
}

/// A failure together with what was expected and what was found.
#[derive(Debug)]
pub enum Fault {
    /// An operation needed more values than the stack holds.
    StackUnderflow { needed: usize, available: usize },
    /// An operand's element kind is not the one the operation works on.
    TypeMismatch { expected: Kind, actual: Kind },
    /// The dimensions do not fit the operation.
    ShapeMismatch { expected_shape: Vec<usize>, actual_shape: Vec<usize> },
    /// An inline function uses its argument letters in a way that is not
    /// allowed: `letter` is the offending one, or `None` where no letter is
    /// used at all.
    ArityError { letter: Option<char> },
    /// A name that stands for no operation.
    UnknownPrimitive,
}

/// The mathematical value of a [`Fault`].
pub enum FaultView {
    StackUnderflow { needed: int, available: int },
    TypeMismatch { expected: Kind, actual: Kind },
    ShapeMismatch { expected_shape: Seq<usize>, actual_shape: Seq<usize> },
    ArityError { letter: Option<char> },
    UnknownPrimitive,
}

impl FaultView {
    pub open spec fn kind(self) -> ErrorKind {
        match self {
            FaultView::StackUnderflow { .. } => ErrorKind::StackUnderflow,
            FaultView::TypeMismatch { .. } => ErrorKind::TypeMismatch,
            FaultView::ShapeMismatch { .. } => ErrorKind::ShapeMismatch,
            FaultView::ArityError { .. } => ErrorKind::ArityError,
            FaultView::UnknownPrimitive => ErrorKind::UnknownPrimitive,
        }
    }
}

impl View for Fault {
    type V = FaultView;

    open spec fn view(&self) -> FaultView {
        match self {
            Fault::StackUnderflow { needed, available } => FaultView::StackUnderflow {
                needed: *needed as int,
                available: *available as int,
            },
            Fault::TypeMismatch { expected, actual } => FaultView::TypeMismatch {
                expected: *expected,
                actual: *actual,
            },
            Fault::ShapeMismatch { expected_shape, actual_shape } => FaultView::ShapeMismatch {
                expected_shape: expected_shape@,
                actual_shape: actual_shape@,
            },
            Fault::ArityError { letter } => FaultView::ArityError { letter: *letter },
            Fault::UnknownPrimitive => FaultView::UnknownPrimitive,
        }
    }
}

impl Fault {
    /// Which of the five kinds this failure is.
    pub fn kind(&self) -> (k: ErrorKind)
        ensures
            k == self@.kind(),
    {
        match self {
            Fault::StackUnderflow { .. } => ErrorKind::StackUnderflow,
            Fault::TypeMismatch { .. } => ErrorKind::TypeMismatch,
            Fault::ShapeMismatch { .. } => ErrorKind::ShapeMismatch,
            Fault::ArityError { .. } => ErrorKind::ArityError,
            Fault::UnknownPrimitive => ErrorKind::UnknownPrimitive,
        }
    }
}

impl Clone for Fault {
    fn clone(&self) -> (r: Self)
        ensures
            r@ == self@,
    {
        match self {
            Fault::StackUnderflow { needed, available } => Fault::StackUnderflow {
                needed: *needed,
                available: *available,
            },
            Fault::TypeMismatch { expected, actual } => Fault::TypeMismatch {
                expected: *expected,
                actual: *actual,
            },
            Fault::ShapeMismatch { expected_shape, actual_shape } => Fault::ShapeMismatch {
                expected_shape: copy_dims(expected_shape),
                actual_shape: copy_dims(actual_shape),
            },
            Fault::ArityError { letter } => Fault::ArityError { letter: *letter },
            Fault::UnknownPrimitive => Fault::UnknownPrimitive,
        }
    }
}

impl ErrorKind {
    pub open spec fn spec_message(&self) -> Seq<char> {
        match self {
            ErrorKind::StackUnderflow => "stack underflow: too few values for the operation"@,
            ErrorKind::TypeMismatch => "type mismatch: wrong element kind for the operation"@,
            ErrorKind::ShapeMismatch => "shape mismatch: the dimensions do not fit the operation"@,
            ErrorKind::ArityError => "arity error: invalid use of argument letters"@,
            ErrorKind::UnknownPrimitive => "unknown primitive: the name stands for no operation"@,
        }
    }

    /// A fixed description of this kind of failure.
    pub fn message(&self) -> (s: &'static str)
        ensures
            s@ == self.spec_message(),
    {
        match self {
            ErrorKind::StackUnderflow => "stack underflow: too few values for the operation",
            ErrorKind::TypeMismatch => "type mismatch: wrong element kind for the operation",
            ErrorKind::ShapeMismatch => "shape mismatch: the dimensions do not fit the operation",
            ErrorKind::ArityError => "arity error: invalid use of argument letters",
            ErrorKind::UnknownPrimitive => "unknown primitive: the name stands for no operation",
        }
    }
}

/// The terminal error of an evaluation: the failure, the primitive that
/// raised it (if one did), and the index in the token stream of the
/// operation that failed.
#[derive(Debug)]
pub struct EvalError {
    pub fault: Fault,
    pub primitive: Option<Primitive>,
    pub position: usize,
}

/// The mathematical value of an [`EvalError`].
pub struct EvalErrorView {
    pub fault: FaultView,
    pub primitive: Option<Primitive>,
    pub position: int,
}

impl View for EvalError {
    type V = EvalErrorView;

    open spec fn view(&self) -> EvalErrorView {
        EvalErrorView {
            fault: self.fault@,
            primitive: self.primitive,
            position: self.position as int,
        }
    }
}

impl EvalError {
    /// Which of the five kinds this error is.
    pub fn kind(&self) -> (k: ErrorKind)
        ensures
            k == self@.fault.kind(),
    {
        self.fault.kind()
    }

    /// A fixed description of this error's kind.
    pub fn message(&self) -> (s: &'static str)
        ensures
            s@ == self@.fault.kind().spec_message(),
    {
        self.fault.kind().message()
    }
}

impl Clone for EvalError {
    fn clone(&self) -> (r: Self)
        ensures
            r@ == self@,
    {
        EvalError {
            fault: self.fault.clone(),
            primitive: self.primitive,
            position: self.position,
        }
    }
}

} // verus!
