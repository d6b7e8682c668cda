//! Why evaluation stopped.

use vstd::prelude::*;
use crate::ast::{BinaryOp, UnaryOp};
use crate::floats::{FloatQuery, FloatQueryView};

verus! {

/// The kind of a runtime value.
#[derive(Debug, Clone, Copy, PartialEq, Eq, Structural)]
pub enum ValueKind {
    Number,
    Float,
    Bool,
    Void,
    String,
    Array,
    Closure,
}

/// An operation applied to values of kinds that it is not defined for.
#[derive(Debug, Clone, Copy, PartialEq, Eq, Structural)]
pub enum Mismatch {
    Binary { op: BinaryOp, left: ValueKind, right: ValueKind },
    Unary { op: UnaryOp, operand: ValueKind },
    /// The condition of an `if` that is no boolean.
    Condition { found: ValueKind },
    /// A call of a value that is no closure.
    NotCallable { found: ValueKind },
    /// An index into a value that is neither array nor string, or an index
    /// that is no integer.
    NotIndexable { container: ValueKind, index: ValueKind },
}

/// What went wrong.
#[derive(Debug, Clone, PartialEq)]
pub enum RuntimeErrorKind {
    UndefinedVariable(String),
    UndefinedFunction(String),
    /// A call with the wrong number of arguments; `function` is `None` for a
    /// closure.
    ArityMismatch { function: Option<String>, expected: usize, found: usize },
    TypeMismatch(Mismatch),
    DivisionOrModuloByZero { modulo: bool },
    /// An index below zero, or not below the length of the array or string.
    NegativeOrOutOfBoundsIndex { container: ValueKind, index: i64, length: usize },
    /// An assignment to a variable that no scope holds (`Some` of its name),
    /// or to a place that is no variable (`None`).
    InvalidAssignmentTarget(Option<String>),
    NoEntryPoint,
    InfiniteLoopSuspected,
    RecursionLimitExceeded,
}

/// A function or closure that an error passed through on its way out, with
/// the number of the statement of its body that failed, counted from one.
/// `function` is `None` for a closure.
#[derive(Debug, Clone, PartialEq)]
pub struct Frame {
    pub function: Option<String>,
    pub statement: usize,
}

/// A runtime error: what went wrong, and the calls it passed through, the
/// innermost first.
#[derive(Debug, Clone, PartialEq)]
pub struct RuntimeError {
    pub kind: RuntimeErrorKind,
    pub frames: Vec<Frame>,
}

/// Why evaluation stopped: an error of the program, which `try` can catch,
/// or a question about floating-point numbers that the table of facts does
/// not answer, which nothing catches.
#[derive(Debug, Clone, PartialEq)]
pub enum Fault {
    Runtime(RuntimeError),
    NeedsFloat(FloatQuery),
}

pub ghost enum RuntimeErrorKindView {
    UndefinedVariable(Seq<char>),
    UndefinedFunction(Seq<char>),
    ArityMismatch { function: Option<Seq<char>>, expected: usize, found: usize },
    TypeMismatch(Mismatch),
    DivisionOrModuloByZero { modulo: bool },
    NegativeOrOutOfBoundsIndex { container: ValueKind, index: i64, length: usize },
    InvalidAssignmentTarget(Option<Seq<char>>),
    NoEntryPoint,
    InfiniteLoopSuspected,
    RecursionLimitExceeded,
}

pub ghost struct FrameView {
    pub function: Option<Seq<char>>,
    pub statement: usize,
}

pub ghost struct RuntimeErrorView {
    pub kind: RuntimeErrorKindView,
    pub frames: Seq<FrameView>,
}

pub ghost enum FaultView {
    Runtime(RuntimeErrorView),
    NeedsFloat(FloatQueryView),
}

/// The value of an optional string.
pub open spec fn optional_text(s: Option<String>) -> Option<Seq<char>> {
    match s {
        Some(s) => Some(s@),
        None => None,
    }
}

impl View for RuntimeErrorKind {
    type V = RuntimeErrorKindView;

    open spec fn view(&self) -> RuntimeErrorKindView {
        match *self {
            RuntimeErrorKind::UndefinedVariable(name) => RuntimeErrorKindView::UndefinedVariable(
                name@,
            ),
            RuntimeErrorKind::UndefinedFunction(name) => RuntimeErrorKindView::UndefinedFunction(
                name@,
            ),
            RuntimeErrorKind::ArityMismatch { function, expected, found } => {
                RuntimeErrorKindView::ArityMismatch {
                    function: optional_text(function),
                    expected,
                    found,
                }
            },
            RuntimeErrorKind::TypeMismatch(m) => RuntimeErrorKindView::TypeMismatch(m),
            RuntimeErrorKind::DivisionOrModuloByZero { modulo } => {
                RuntimeErrorKindView::DivisionOrModuloByZero { modulo }
            },
            RuntimeErrorKind::NegativeOrOutOfBoundsIndex { container, index, length } => {
                RuntimeErrorKindView::NegativeOrOutOfBoundsIndex { container, index, length }
            },
            RuntimeErrorKind::InvalidAssignmentTarget(name) => {
                RuntimeErrorKindView::InvalidAssignmentTarget(optional_text(name))
            },
            RuntimeErrorKind::NoEntryPoint => RuntimeErrorKindView::NoEntryPoint,
            RuntimeErrorKind::InfiniteLoopSuspected => RuntimeErrorKindView::InfiniteLoopSuspected,
            RuntimeErrorKind::RecursionLimitExceeded => RuntimeErrorKindView::RecursionLimitExceeded,
        }
    }
}

impl View for Frame {
    type V = FrameView;

    open spec fn view(&self) -> FrameView {
        FrameView { function: optional_text(self.function), statement: self.statement }
    }
}

/// The values of a sequence of frames.
pub open spec fn frames_view(frames: Seq<Frame>) -> Seq<FrameView> {
    frames.map_values(|f: Frame| f@)
}

impl View for RuntimeError {
    type V = RuntimeErrorView;

    open spec fn view(&self) -> RuntimeErrorView {
        RuntimeErrorView { kind: self.kind@, frames: frames_view(self.frames@) }
    }
}

impl View for Fault {
    type V = FaultView;

    open spec fn view(&self) -> FaultView {
        match *self {
            Fault::Runtime(e) => FaultView::Runtime(e@),
            Fault::NeedsFloat(q) => FaultView::NeedsFloat(q@),
        }
    }
}

/// An error of the given kind that has passed through no call yet.
pub open spec fn plain_error(kind: RuntimeErrorKindView) -> FaultView {
    FaultView::Runtime(RuntimeErrorView { kind, frames: Seq::empty() })
}

/// The fault after it has left the body of a function or closure at the
/// given statement: a runtime error gains a frame, and keeps its kind.
pub open spec fn annotated(fault: FaultView, function: Option<Seq<char>>, statement: usize) -> FaultView {
    match fault {
        FaultView::Runtime(e) => FaultView::Runtime(
            RuntimeErrorView {
                kind: e.kind,
                frames: e.frames.push(FrameView { function, statement }),
            },
        ),
        FaultView::NeedsFloat(q) => FaultView::NeedsFloat(q),
    }
}

impl RuntimeError {
    /// An error of the given kind that has passed through no call yet.
    pub fn new(kind: RuntimeErrorKind) -> (e: RuntimeError)
        ensures
            e@ == (RuntimeErrorView { kind: kind@, frames: Seq::empty() }),
    {
        let e = RuntimeError { kind, frames: Vec::new() };
        assert(frames_view(e.frames@) =~= Seq::empty());
        e
    }
}

impl Fault {
    /// A runtime error of the given kind that has passed through no call yet.
    pub fn error(kind: RuntimeErrorKind) -> (f: Fault)
        ensures
            f@ == plain_error(kind@),
    {
        Fault::Runtime(RuntimeError::new(kind))
    }

    /// The fault after it has left the body of a function or closure at the
    /// given statement.
    pub fn annotate(self, function: Option<String>, statement: usize) -> (f: Fault)
        ensures
            f@ == annotated(self@, optional_text(function), statement),
    {
        match self {
            Fault::Runtime(e) => {
                let RuntimeError { kind, frames } = e;
                let mut frames = frames;
                let ghost before = frames@;
                let frame = Frame { function, statement };
                frames.push(frame);
                assert(frames_view(frames@) =~= frames_view(before).push(frame@));
                Fault::Runtime(RuntimeError { kind, frames })
            },
            Fault::NeedsFloat(q) => Fault::NeedsFloat(q),
        }
    }
}

} // verus!
