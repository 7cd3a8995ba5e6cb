//! Type descriptors: a named type under any nesting of "optional" and "list".

use vstd::prelude::*;

verus! {

/// The mathematical model of a type descriptor.
pub enum TypeView {
    /// A reference to a schema type by name.
    Named(Seq<char>),
    /// A slot that may be absent.
    Optional(Box<TypeView>),
    /// A list of elements.
    Vector(Box<TypeView>),
}

impl TypeView {
    /// Whether the outermost wrapper is "optional".
    pub open spec fn is_optional(self) -> bool {
        self is Optional
    }

    /// The innermost name, after all wrappers have been stripped.
    pub open spec fn inner_name(self) -> Seq<char>
        decreases self,
    {
        match self {
            TypeView::Named(name) => name,
            TypeView::Optional(inner) => inner.inner_name(),
            TypeView::Vector(inner) => inner.inner_name(),
        }
    }

    /// The type against which the elements of a list literal are compiled:
    /// what the nearest list wrapper holds. A descriptor without a list
    /// wrapper is its own element type.
    pub open spec fn element_type(self) -> TypeView
        decreases self,
    {
        match self {
            TypeView::Named(_) => self,
            TypeView::Optional(inner) => inner.element_type(),
            TypeView::Vector(inner) => *inner,
        }
    }
}

/// A type descriptor as the code generator holds it.
#[derive(Debug, PartialEq, Eq)]
pub enum FieldType {
    /// A reference to a schema type by name.
    Named(String),
    /// A slot that may be absent.
    Optional(Box<FieldType>),
    /// A list of elements.
    Vector(Box<FieldType>),
}

impl View for FieldType {
    type V = TypeView;

    open spec fn view(&self) -> TypeView {
        self.model()
    }
}

impl FieldType {
    /// The descriptor as a mathematical value; `view` is this function.
    pub open spec fn model(&self) -> TypeView
        decreases self,
    {
        match self {
            FieldType::Named(name) => TypeView::Named(name@),
            FieldType::Optional(inner) => TypeView::Optional(Box::new(inner.model())),
            FieldType::Vector(inner) => TypeView::Vector(Box::new(inner.model())),
        }
    }

    /// Whether the outermost wrapper is "optional".
    pub fn is_optional(&self) -> (b: bool)
        ensures
            b == self@.is_optional(),
    {
        match self {
            FieldType::Optional(_) => true,
            _ => false,
        }
    }

    /// The innermost name, after all wrappers have been stripped.
    pub fn inner_name_string(&self) -> (name: String)
        ensures
            name@ == self@.inner_name(),
        decreases self,
    {
        match self {
            FieldType::Named(name) => name.clone(),
            FieldType::Optional(inner) => inner.inner_name_string(),
            FieldType::Vector(inner) => inner.inner_name_string(),
        }
    }

    /// The type against which the elements of a list literal are compiled.
    pub fn element_type(&self) -> (elem: &FieldType)
        ensures
            elem@ == self@.element_type(),
        decreases self,
    {
        match self {
            FieldType::Named(_) => self,
            FieldType::Optional(inner) => inner.element_type(),
            FieldType::Vector(inner) => &**inner,
        }
    }
}

} // verus!
