//! What a literal compiles to, stated over the mathematical models of the
//! compiler's arguments. The executable compiler is proved to compute exactly
//! these functions.

use vstd::prelude::*;
use crate::error::{Compiled, ErrorKind, ErrorView};
use crate::expr::{ExprView, FieldInitView};
use crate::field_type::TypeView;
use crate::schema::{FieldView, SchemaView};
use crate::value::ValueView;

verus! {

/// What a literal compiles to in a slot of type `ty` with the given
/// optionality: the expression for the literal itself, marked present where
/// the slot is optional, or the reason why there is none.
///
/// `ty` matters for object literals only, which are built as values of the
/// input type that `ty` names. A `null` and a variable reference have no
/// expression. Of several failures, the first in the order of the list items
/// and of the declared fields is the one reported.
pub open spec fn compile(
    value: ValueView,
    schema: SchemaView,
    ty: TypeView,
    is_optional: bool,
) -> Compiled<ExprView>
    decreases value, 0nat,
{
    let inner = match value {
        ValueView::Boolean(b) => Ok(ExprView::Bool(b)),
        ValueView::String(s) => Ok(ExprView::Str(s)),
        ValueView::Variable(_) => Err(ErrorView::here(ErrorKind::VariableReferenceInDefault)),
        ValueView::Null => Err(ErrorView::here(ErrorKind::NullDefaultUnsupported)),
        ValueView::Float(bits) => Ok(ExprView::Float(bits)),
        ValueView::Int(i) => Ok(ExprView::Int(i)),
        ValueView::Enum(name) => Ok(ExprView::Path(name)),
        ValueView::List(items) => match compile_items(
            items,
            schema,
            ty.element_type(),
            items.len(),
        ) {
            Ok(elements) => Ok(ExprView::Sequence(elements)),
            Err(e) => Err(e),
        },
        ValueView::Object(fields) => object_literal(fields, schema, ty),
    };
    match inner {
        Ok(e) => Ok(e.in_slot(is_optional)),
        Err(e) => Err(e),
    }
}

/// What the first `n` items of a list literal compile to, each in a
/// non-optional slot of type `element`: their expressions in the order of the
/// items, or the error of the first item that has none.
pub open spec fn compile_items(
    items: Seq<ValueView>,
    schema: SchemaView,
    element: TypeView,
    n: nat,
) -> Compiled<Seq<ExprView>>
    decreases items, n,
{
    if n == 0 || n > items.len() {
        Ok(Seq::empty())
    } else {
        match compile_items(items, schema, element, (n - 1) as nat) {
            Err(e) => Err(e),
            Ok(elements) => match compile(items[n - 1], schema, element, false) {
                Err(e) => Err(e),
                Ok(e) => Ok(elements.push(e)),
            },
        }
    }
}

/// What an object literal compiles to in a slot of type `ty`, before the slot's
/// optionality is applied: a value of the input type that `ty` names, with one
/// initialiser for each field that the schema declares for it.
pub open spec fn object_literal(
    object: Map<Seq<char>, ValueView>,
    schema: SchemaView,
    ty: TypeView,
) -> Compiled<ExprView>
    decreases object, schema.inputs[ty.inner_name()].len() + 1,
{
    let name = ty.inner_name();
    if schema.inputs.contains_key(name) {
        let declared = schema.inputs[name];
        match compile_fields(object, schema, declared, declared.len()) {
            Ok(fields) => Ok(ExprView::Construct { constructor: name, fields }),
            Err(e) => Err(e),
        }
    } else {
        Err(ErrorView::here(ErrorKind::UnknownInputType))
    }
}

/// The initialiser of one declared field: the value that the literal supplies,
/// compiled in a slot of the field's own type and optionality, or "absent"
/// where the literal supplies none. A failure within the supplied value is
/// reported under the field's name.
pub open spec fn compile_field(
    object: Map<Seq<char>, ValueView>,
    schema: SchemaView,
    field: FieldView,
) -> Compiled<FieldInitView>
    decreases object, 0nat,
    when object.dom().finite()
{
    if object.contains_key(field.name) {
        match compile(object[field.name], schema, field.ty, field.ty.is_optional()) {
            Ok(e) => Ok(FieldInitView { name: field.name, value: e }),
            Err(e) => Err(e.under(field.name)),
        }
    } else {
        Ok(FieldInitView { name: field.name, value: ExprView::Absent })
    }
}

/// The initialisers of the first `n` declared fields, in their declared order,
/// or the error of the first field whose supplied value has no expression.
pub open spec fn compile_fields(
    object: Map<Seq<char>, ValueView>,
    schema: SchemaView,
    declared: Seq<FieldView>,
    n: nat,
) -> Compiled<Seq<FieldInitView>>
    decreases object, n,
{
    if n == 0 || n > declared.len() {
        Ok(Seq::empty())
    } else {
        match compile_fields(object, schema, declared, (n - 1) as nat) {
            Err(e) => Err(e),
            Ok(fields) => match compile_field(object, schema, declared[n - 1]) {
                Err(e) => Err(e),
                Ok(field) => Ok(fields.push(field)),
            },
        }
    }
}

} // verus!
