//! The ways in which compiling a default value can fail, and where.

use vstd::prelude::*;

verus! {

/// Why a literal has no expression. Each of these ends the compilation of the
/// whole variable: no partial expression is ever returned.
#[derive(Clone, Copy, Debug, PartialEq, Eq, Structural)]
pub enum ErrorKind {
    /// The literal `null` stands where a value must be materialised.
    NullDefaultUnsupported,
    /// The default refers to another variable.
    VariableReferenceInDefault,
    /// An object literal is typed by a name that the schema does not declare
    /// as an input type.
    UnknownInputType,
}

/// The mathematical model of a failed compilation.
pub struct ErrorView {
    pub kind: ErrorKind,
    /// The names of the object fields that lead from the default value as a
    /// whole to the offending literal, outermost first.
    pub path: Seq<Seq<char>>,
}

impl ErrorView {
    /// A failure of the given kind at the literal that is being compiled.
    pub open spec fn here(kind: ErrorKind) -> ErrorView {
        ErrorView { kind, path: Seq::empty() }
    }

    /// The same failure, seen from the object that holds the failing value
    /// under `field`.
    pub open spec fn under(self, field: Seq<char>) -> ErrorView {
        ErrorView { kind: self.kind, path: self.path.insert(0, field) }
    }
}

/// What a compilation gives, as a mathematical value: the compiled thing, or
/// the failure.
pub type Compiled<T> = Result<T, ErrorView>;

/// A failed compilation: what the compiler met, and under which fields.
#[derive(Debug, PartialEq, Eq)]
pub struct CompileError {
    pub kind: ErrorKind,
    /// The names of the object fields that lead from the default value as a
    /// whole to the offending literal, outermost first. Empty where the
    /// offence is not within an object.
    pub path: Vec<String>,
}

impl View for CompileError {
    type V = ErrorView;

    open spec fn view(&self) -> ErrorView {
        ErrorView {
            kind: self.kind,
            path: Seq::new(self.path.len() as nat, |i: int| self.path[i]@),
        }
    }
}

impl CompileError {
    /// A failure of the given kind at the literal that is being compiled.
    pub fn here(kind: ErrorKind) -> (error: CompileError)
        ensures
            error@ == ErrorView::here(kind),
    {
        let error = CompileError { kind, path: Vec::new() };
        assert(error@.path =~= Seq::empty());
        error
    }

    /// The same failure, seen from the object that holds the failing value
    /// under `field`.
    pub fn under(self, field: &String) -> (error: CompileError)
        ensures
            error@ == self@.under(field@),
    {
        let mut path = self.path;
        path.insert(0, field.clone());
        let error = CompileError { kind: self.kind, path };
        assert(error@.path =~= self@.path.insert(0, field@));
        error
    }
}

} // verus!
