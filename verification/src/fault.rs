//! What is reported when a document does not hold what a record needs.
use crate::text::{natural_string, natural_text};
use vstd::prelude::*;

verus! {

/// What is wrong with a document, or with the place that the path of a
/// [`DeserializationError`] leads to.
#[derive(Debug, Clone, Copy, PartialEq, Eq)]
pub enum Problem {
    /// The text is not a JSON document.
    Syntax,
    /// A field that the record needs is not there.
    Missing,
    /// The value is not a whole number that `i64` holds.
    NotInteger,
    /// The value is not a number.
    NotNumber,
    /// The value is not a text.
    NotText,
    /// The value is not a list.
    NotList,
    /// The value is not a record.
    NotRecord,
}

/// One step on the way from a document's root to a value in it.
#[derive(Debug, Clone, PartialEq)]
pub enum PathStep {
    /// Into the field of that name.
    Field(String),
    /// Into the item at that place of a list, counted from zero.
    Index(usize),
}

/// The model of a [`PathStep`].
pub enum PathStepView {
    Field(Seq<char>),
    Index(int),
}

impl DeepView for PathStep {
    type V = PathStepView;

    open spec fn deep_view(&self) -> PathStepView {
        match self {
            PathStep::Field(name) => PathStepView::Field(name@),
            PathStep::Index(at) => PathStepView::Index(*at as int),
        }
    }
}

/// A document could not be read as the record it should hold: where in the
/// document, from the root down, and what is wrong there.
#[derive(Debug, Clone, PartialEq)]
pub struct DeserializationError {
    pub path: Vec<PathStep>,
    pub problem: Problem,
}

/// The model of a [`DeserializationError`].
pub struct DeserializationErrorView {
    pub path: Seq<PathStepView>,
    pub problem: Problem,
}

impl DeepView for DeserializationError {
    type V = DeserializationErrorView;

    open spec fn deep_view(&self) -> DeserializationErrorView {
        DeserializationErrorView { path: self.path.deep_view(), problem: self.problem }
    }
}

/// What a decoder gives, in the model: the record, or the first fault.
pub type Decoded<T> = Result<T, DeserializationErrorView>;

/// The fault `problem`, right where the decoder stands.
pub open spec fn fault_here(problem: Problem) -> DeserializationErrorView {
    DeserializationErrorView { path: Seq::empty(), problem }
}

/// The fault `problem` in the field `name` of the record where the decoder
/// stands.
pub open spec fn fault_in(name: Seq<char>, problem: Problem) -> DeserializationErrorView {
    DeserializationErrorView { path: seq![PathStepView::Field(name)], problem }
}

impl DeserializationErrorView {
    /// The same fault, seen from one step further up.
    pub open spec fn under(self, step: PathStepView) -> DeserializationErrorView {
        DeserializationErrorView { path: seq![step] + self.path, problem: self.problem }
    }

    /// The text of the fault: the path, a colon, and the problem.
    pub open spec fn message(self) -> Seq<char> {
        path_text(self.path) + ": "@ + problem_text(self.problem)
    }
}

/// The model of what an executable decoder returned.
pub open spec fn outcome<T: DeepView>(r: Result<T, DeserializationError>) -> Decoded<T::V> {
    match r {
        Ok(value) => Ok(value.deep_view()),
        Err(fault) => Err(fault.deep_view()),
    }
}

/// The words for a problem.
pub open spec fn problem_text(problem: Problem) -> Seq<char> {
    match problem {
        Problem::Syntax => "not a JSON document"@,
        Problem::Missing => "missing field"@,
        Problem::NotInteger => "expected an integer"@,
        Problem::NotNumber => "expected a number"@,
        Problem::NotText => "expected a string"@,
        Problem::NotList => "expected a list"@,
        Problem::NotRecord => "expected a record"@,
    }
}

/// One step as it is written in a path: a field as its name, with a dot
/// before it unless it comes first; an index as its number in brackets.
pub open spec fn step_text(step: PathStepView, first: bool) -> Seq<char> {
    match step {
        PathStepView::Field(name) => if first {
            name
        } else {
            "."@ + name
        },
        PathStepView::Index(at) => "["@ + natural_text(at as nat) + "]"@,
    }
}

/// A path as it is written: its steps in a row, `$` for the empty path.
pub open spec fn path_text(path: Seq<PathStepView>) -> Seq<char>
    decreases path.len(),
{
    if path.len() == 0 {
        "$"@
    } else if path.len() == 1 {
        step_text(path[0], true)
    } else {
        path_text(path.drop_last()) + step_text(path.last(), false)
    }
}

impl Problem {
    /// The words for the problem.
    pub fn text(&self) -> (words: &'static str)
        ensures
            words@ == problem_text(*self),
    {
        match self {
            Problem::Syntax => "not a JSON document",
            Problem::Missing => "missing field",
            Problem::NotInteger => "expected an integer",
            Problem::NotNumber => "expected a number",
            Problem::NotText => "expected a string",
            Problem::NotList => "expected a list",
            Problem::NotRecord => "expected a record",
        }
    }
}

impl DeserializationError {
    /// The fault `problem`, right where the decoder stands.
    pub fn here(problem: Problem) -> (fault: DeserializationError)
        ensures
            fault.deep_view() == fault_here(problem),
    {
        let fault = DeserializationError { path: Vec::new(), problem };
        assert(fault.path.deep_view() =~= Seq::empty());
        fault
    }

    /// The fault `problem` in the field `name`.
    pub fn in_field(name: &str, problem: Problem) -> (fault: DeserializationError)
        ensures
            fault.deep_view() == fault_in(name@, problem),
    {
        let mut path: Vec<PathStep> = Vec::new();
        path.push(PathStep::Field(name.to_owned()));
        let fault = DeserializationError { path, problem };
        assert(fault.path.deep_view() =~= seq![PathStepView::Field(name@)]);
        fault
    }

    /// The same fault, seen from the record that holds the field `name`.
    pub fn under_field(self, name: &str) -> (fault: DeserializationError)
        ensures
            fault.deep_view() == self.deep_view().under(PathStepView::Field(name@)),
    {
        let mut path = self.path;
        path.insert(0, PathStep::Field(name.to_owned()));
        let fault = DeserializationError { path, problem: self.problem };
        assert(fault.path.deep_view() =~= seq![PathStepView::Field(name@)]
            + self.path.deep_view());
        fault
    }

    /// The same fault, seen from the list that holds the item at `at`.
    pub fn under_index(self, at: usize) -> (fault: DeserializationError)
        ensures
            fault.deep_view() == self.deep_view().under(PathStepView::Index(at as int)),
    {
        let mut path = self.path;
        path.insert(0, PathStep::Index(at));
        let fault = DeserializationError { path, problem: self.problem };
        assert(fault.path.deep_view() =~= seq![PathStepView::Index(at as int)]
            + self.path.deep_view());
        fault
    }

    /// The text of the fault, such as
    /// `typeMatches[0].seriesMatches: expected a list`.
    pub fn message(&self) -> (text: String)
        ensures
            text@ == self.deep_view().message(),
    {
        let ghost path = self.path.deep_view();
        let mut text = String::new();
        if self.path.len() == 0 {
            text.append("$");
        }
        let mut i: usize = 0;
        while i < self.path.len()
            invariant
                i <= self.path@.len(),
                path == self.path.deep_view(),
                path.len() == self.path@.len(),
                text@ == if path.len() == 0 {
                    "$"@
                } else if i == 0 {
                    Seq::<char>::empty()
                } else {
                    path_text(path.take(i as int))
                },
            decreases self.path@.len() - i,
        {
            let ghost before = text@;
            match &self.path[i] {
                PathStep::Field(name) => {
                    if i > 0 {
                        text.append(".");
                    }
                    text.append(name.as_str());
                },
                PathStep::Index(at) => {
                    text.append("[");
                    let digits = natural_string(*at as u64);
                    text.append(digits.as_str());
                    text.append("]");
                },
            }
            proof {
                let longer = path.take(i + 1);
                assert(longer.last() == path[i as int]);
                assert(longer.drop_last() =~= path.take(i as int));
                assert(text@ =~= before + step_text(path[i as int], i == 0));
                if i == 0 {
                    assert(longer[0] == path[0]);
                    assert(before + step_text(path[0], true) =~= step_text(path[0], true));
                }
            }
            i += 1;
        }
        proof {
            assert(path.take(path.len() as int) =~= path);
        }
        text.append(": ");
        text.append(self.problem.text());
        text
    }
}

} // verus!
