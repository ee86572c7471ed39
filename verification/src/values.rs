//! Collected values and the user-facing error taxonomy.

use vstd::prelude::*;

verus! {

/// What has been collected for one declared argument.
#[derive(Debug, PartialEq, Eq)]
pub enum CollectedValue {
    /// The argument never appeared.
    Missing,
    /// A `One`-arity argument's value; a later occurrence overwrote earlier ones.
    Single(String),
    /// A `Many`-arity argument's values, in encounter order.
    Values(Vec<String>),
    /// Occurrence count of a value-less argument.
    Count(usize),
}

/// Mathematical model of a `CollectedValue`.
pub ghost enum ValModel {
    Missing,
    Single(Seq<char>),
    Values(Seq<Seq<char>>),
    Count(nat),
}

impl View for CollectedValue {
    type V = ValModel;

    open spec fn view(&self) -> ValModel {
        match self {
            CollectedValue::Missing => ValModel::Missing,
            CollectedValue::Single(s) => ValModel::Single(s@),
            CollectedValue::Values(v) => ValModel::Values(v.deep_view()),
            CollectedValue::Count(n) => ValModel::Count(*n as nat),
        }
    }
}

impl DeepView for CollectedValue {
    type V = ValModel;

    open spec fn deep_view(&self) -> ValModel {
        self.view()
    }
}

/// Whether a collected value counts as "present" for constraint checking.
pub open spec fn present(v: ValModel) -> bool {
    match v {
        ValModel::Missing => false,
        ValModel::Single(_) => true,
        ValModel::Values(vs) => vs.len() > 0,
        ValModel::Count(n) => n > 0,
    }
}

/// A failed parse.  Every variant names the offending token or argument(s).
#[derive(Debug, PartialEq, Eq)]
pub enum ParseError {
    /// A token that looks like a flag but matches no declared form.
    UnknownArgument(String),
    /// A plain token with no argument collecting values.
    UnexpectedValue(String),
    /// A value-taking argument's flag with no value following it.
    MissingValueForArgument(String),
    /// A required argument (possibly conditionally required) is absent.
    MissingRequiredArgument(String),
    /// Two mutually exclusive arguments are both present.
    ConflictingArguments(String, String),
}

/// Mathematical model of a `ParseError`.
pub ghost enum ErrModel {
    UnknownArgument(Seq<char>),
    UnexpectedValue(Seq<char>),
    MissingValueForArgument(Seq<char>),
    MissingRequiredArgument(Seq<char>),
    ConflictingArguments(Seq<char>, Seq<char>),
}

impl View for ParseError {
    type V = ErrModel;

    open spec fn view(&self) -> ErrModel {
        match self {
            ParseError::UnknownArgument(t) => ErrModel::UnknownArgument(t@),
            ParseError::UnexpectedValue(t) => ErrModel::UnexpectedValue(t@),
            ParseError::MissingValueForArgument(n) => ErrModel::MissingValueForArgument(n@),
            ParseError::MissingRequiredArgument(n) => ErrModel::MissingRequiredArgument(n@),
            ParseError::ConflictingArguments(a, b) => ErrModel::ConflictingArguments(a@, b@),
        }
    }
}

} // verus!
