//! What a failed decode reports: the kind of fault and the place in the
//! document at which it was found.

use vstd::prelude::*;

verus! {

/// The ways in which a document can fail to decode.
#[derive(Clone, Copy, Debug, PartialEq, Eq, Structural)]
pub enum ErrorKind {
    /// The text is not a JSON document.
    Syntax,
    /// The value has another JSON type than the one that is called for.
    WrongType,
    /// A required field is not in the object.
    MissingField,
    /// An integer that is not a member of a closed vocabulary.
    UnknownValue,
    /// An integer that does not fit the width of its field.
    OutOfRange,
}

/// One step on the way from the root of a document to a value in it.
#[derive(Clone, Copy, Debug, PartialEq, Eq)]
pub enum Step {
    /// Into the member of an object with this key.
    Field(&'static str),
    /// Into the element of an array at this position.
    Index(usize),
}

/// The mathematical value of a [`Step`].
pub enum StepView {
    Field(Seq<char>),
    Index(nat),
}

impl DeepView for Step {
    type V = StepView;

    open spec fn deep_view(&self) -> StepView {
        match self {
            Step::Field(name) => StepView::Field(name@),
            Step::Index(i) => StepView::Index(*i as nat),
        }
    }
}

/// A failed decode: what went wrong, and where.
///
/// `path` leads from the root of the document to the offending value; it is
/// empty where the root itself is at fault.
#[derive(Clone, Debug, PartialEq, Eq)]
pub struct DecodeError {
    pub kind: ErrorKind,
    pub path: Vec<Step>,
}

/// The mathematical value of a [`DecodeError`].
pub struct DecodeErrorView {
    pub kind: ErrorKind,
    pub path: Seq<StepView>,
}

impl DecodeErrorView {
    /// A fault of the given kind at the root.
    pub open spec fn at_root(kind: ErrorKind) -> DecodeErrorView {
        DecodeErrorView { kind, path: Seq::empty() }
    }

    /// The same fault, seen from one step further out.
    pub open spec fn within(self, step: StepView) -> DecodeErrorView {
        DecodeErrorView { kind: self.kind, path: seq![step] + self.path }
    }
}

impl DeepView for DecodeError {
    type V = DecodeErrorView;

    open spec fn deep_view(&self) -> DecodeErrorView {
        DecodeErrorView { kind: self.kind, path: self.path.deep_view() }
    }
}

impl DecodeError {
    /// A fault of the given kind at the root.
    pub fn at_root(kind: ErrorKind) -> (error: DecodeError)
        ensures
            error.deep_view() == DecodeErrorView::at_root(kind),
    {
        let error = DecodeError { kind, path: Vec::new() };
        assert(error.path.deep_view() =~= Seq::empty());
        error
    }

    /// The same fault, seen from one step further out.
    pub fn within(self, step: Step) -> (error: DecodeError)
        ensures
            error.deep_view() == self.deep_view().within(step.deep_view()),
    {
        let mut path = self.path;
        path.insert(0, step);
        assert(path.deep_view() =~= seq![step.deep_view()] + self.path.deep_view());
        DecodeError { kind: self.kind, path }
    }
}

} // verus!
