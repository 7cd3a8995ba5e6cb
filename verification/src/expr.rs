//! Construction expressions: what a compiled default value looks like in the
//! generated code.

use vstd::prelude::*;
use crate::error::{CompileError, Compiled};

verus! {

/// The mathematical model of one `name: value` initialiser.
pub struct FieldInitView {
    pub name: Seq<char>,
    pub value: ExprView,
}

/// The mathematical model of a construction expression.
pub enum ExprView {
    /// `true` or `false`.
    Bool(bool),
    /// An owned string made from a string literal.
    Str(Seq<char>),
    /// An integer literal with a 64-bit value.
    Int(i64),
    /// A floating-point literal, held as the 64 bits of its IEEE 754 encoding.
    Float(u64),
    /// A bare identifier that names an enum constant.
    Path(Seq<char>),
    /// A sequence of the given elements, in this order.
    Sequence(Seq<ExprView>),
    /// A value of the named input type, built field by field.
    Construct { constructor: Seq<char>, fields: Seq<FieldInitView> },
    /// An optional slot that holds the given value.
    Present(Box<ExprView>),
    /// An optional slot that holds nothing.
    Absent,
}

impl ExprView {
    /// The expression as it stands in a slot with the given optionality: a
    /// value in an optional slot is marked present, once.
    pub open spec fn in_slot(self, is_optional: bool) -> ExprView {
        if is_optional {
            ExprView::Present(Box::new(self))
        } else {
            self
        }
    }
}

/// One `name: value` initialiser of a `Construct` expression.
#[derive(Debug, PartialEq)]
pub struct FieldInit {
    pub name: String,
    pub value: Expr,
}

/// A construction expression.
#[derive(Debug, PartialEq)]
pub enum Expr {
    /// `true` or `false`.
    Bool(bool),
    /// An owned string made from a string literal.
    Str(String),
    /// An integer literal with a 64-bit value.
    Int(i64),
    /// A floating-point literal, held as the 64 bits of its IEEE 754 encoding.
    Float(u64),
    /// A bare identifier that names an enum constant.
    Path(String),
    /// A sequence of the given elements, in this order.
    Sequence(Vec<Expr>),
    /// A value of the named input type, built field by field.
    Construct { constructor: String, fields: Vec<FieldInit> },
    /// An optional slot that holds the given value.
    Present(Box<Expr>),
    /// An optional slot that holds nothing.
    Absent,
}

impl View for FieldInit {
    type V = FieldInitView;

    open spec fn view(&self) -> FieldInitView {
        FieldInitView { name: self.name@, value: self.value.model() }
    }
}

impl View for Expr {
    type V = ExprView;

    open spec fn view(&self) -> ExprView {
        self.model()
    }
}

impl Expr {
    /// The expression as a mathematical value; `view` is this function.
    pub open spec fn model(&self) -> ExprView
        decreases self,
    {
        match self {
            Expr::Bool(b) => ExprView::Bool(*b),
            Expr::Str(s) => ExprView::Str(s@),
            Expr::Int(i) => ExprView::Int(*i),
            Expr::Float(bits) => ExprView::Float(*bits),
            Expr::Path(name) => ExprView::Path(name@),
            Expr::Sequence(items) => ExprView::Sequence(
                Seq::new(
                    items.len() as nat,
                    |i: int|
                        if 0 <= i < items.len() {
                            items[i].model()
                        } else {
                            arbitrary()
                        },
                ),
            ),
            Expr::Construct { constructor, fields } => ExprView::Construct {
                constructor: constructor@,
                fields: Seq::new(
                    fields.len() as nat,
                    |i: int|
                        if 0 <= i < fields.len() {
                            FieldInitView { name: fields[i].name@, value: fields[i].value.model() }
                        } else {
                            arbitrary()
                        },
                ),
            },
            Expr::Present(inner) => ExprView::Present(Box::new(inner.model())),
            Expr::Absent => ExprView::Absent,
        }
    }

    /// The expression as it stands in a slot with the given optionality.
    pub fn in_slot(self, is_optional: bool) -> (e: Expr)
        ensures
            e@ == self@.in_slot(is_optional),
    {
        if is_optional {
            Expr::Present(Box::new(self))
        } else {
            self
        }
    }
}

/// The outcome of a compilation as a mathematical value: the model of the
/// expression, or that of the failure.
pub open spec fn result_view(result: Result<Expr, CompileError>) -> Compiled<ExprView> {
    match result {
        Ok(expr) => Ok(expr@),
        Err(e) => Err(e@),
    }
}

} // verus!
