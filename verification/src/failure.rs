//! When a compilation fails: exactly where the compiler meets something that
//! it has no expression for.

use vstd::prelude::*;
use crate::error::{Compiled, ErrorKind, ErrorView};
use crate::expr::ExprView;
use crate::field_type::{FieldType, TypeView};
use crate::literal::{compile, compile_field, compile_fields, compile_items};
use crate::query::QueryContext;
use crate::schema::{FieldView, SchemaView};
use crate::value::{lemma_model_wf, Value, ValueView};

verus! {

/// Whether the compiler, on its way through a literal in a slot of type `ty`,
/// comes upon something that it has no expression for: a `null`, a variable
/// reference, or an object whose type the schema does not declare as an input
/// type. Of a list it visits every item; of an object, the values entered
/// under the names of declared fields, and no others.
pub open spec fn meets_unsupported(value: ValueView, schema: SchemaView, ty: TypeView) -> bool
    decreases value, 0nat,
{
    match value {
        ValueView::Null => true,
        ValueView::Variable(_) => true,
        ValueView::List(items) => meets_unsupported_in_items(
            items,
            schema,
            ty.element_type(),
            items.len(),
        ),
        ValueView::Object(object) => {
            let declared = schema.inputs[ty.inner_name()];
            !schema.inputs.contains_key(ty.inner_name()) || meets_unsupported_in_fields(
                object,
                schema,
                declared,
                declared.len(),
            )
        },
        _ => false,
    }
}

/// Whether the compiler meets something unsupported in one of the first `n`
/// items of a list, each in a slot of type `element`.
pub open spec fn meets_unsupported_in_items(
    items: Seq<ValueView>,
    schema: SchemaView,
    element: TypeView,
    n: nat,
) -> bool
    decreases items, n,
{
    0 < n <= items.len() && (meets_unsupported_in_items(items, schema, element, (n - 1) as nat)
        || meets_unsupported(items[n - 1], schema, element))
}

/// Whether the compiler meets something unsupported in what an object
/// supplies for one of the first `n` declared fields.
pub open spec fn meets_unsupported_in_fields(
    object: Map<Seq<char>, ValueView>,
    schema: SchemaView,
    declared: Seq<FieldView>,
    n: nat,
) -> bool
    decreases object, n,
    when object.dom().finite()
{
    0 < n <= declared.len() && (meets_unsupported_in_fields(
        object,
        schema,
        declared,
        (n - 1) as nat,
    ) || (object.contains_key(declared[n - 1].name) && meets_unsupported(
        object[declared[n - 1].name],
        schema,
        declared[n - 1].ty,
    )))
}

/// Compilation fails exactly if the compiler meets something unsupported, at
/// whatever depth, and then yields no expression at all; the optionality of
/// the slot makes no difference to that.
pub proof fn lemma_failure(value: ValueView, schema: SchemaView, ty: TypeView, is_optional: bool)
    requires
        value.wf(),
    ensures
        compile(value, schema, ty, is_optional) is Err <==> meets_unsupported(value, schema, ty),
    decreases value, 0nat,
{
    match value {
        ValueView::List(items) => {
            lemma_failure_in_items(items, schema, ty.element_type(), items.len());
        },
        ValueView::Object(object) => {
            let name = ty.inner_name();
            if schema.inputs.contains_key(name) {
                let declared = schema.inputs[name];
                lemma_failure_in_fields(object, schema, declared, declared.len());
            }
        },
        _ => {},
    }
}

/// The first `n` items of a list fail to compile exactly if the compiler
/// meets something unsupported in one of them.
pub proof fn lemma_failure_in_items(
    items: Seq<ValueView>,
    schema: SchemaView,
    element: TypeView,
    n: nat,
)
    requires
        n <= items.len(),
        forall|i: int| 0 <= i < items.len() ==> (#[trigger] items[i]).wf(),
    ensures
        compile_items(items, schema, element, n) is Err <==> meets_unsupported_in_items(
            items,
            schema,
            element,
            n,
        ),
    decreases items, n,
{
    if n > 0 {
        lemma_failure_in_items(items, schema, element, (n - 1) as nat);
        lemma_failure(items[n - 1], schema, element, false);
    }
}

/// The first `n` declared fields of an object fail to compile exactly if the
/// compiler meets something unsupported in what the object supplies for one
/// of them.
pub proof fn lemma_failure_in_fields(
    object: Map<Seq<char>, ValueView>,
    schema: SchemaView,
    declared: Seq<FieldView>,
    n: nat,
)
    requires
        n <= declared.len(),
        object.dom().finite(),
        forall|name: Seq<char>| #[trigger] object.contains_key(name) ==> object[name].wf(),
    ensures
        compile_fields(object, schema, declared, n) is Err <==> meets_unsupported_in_fields(
            object,
            schema,
            declared,
            n,
        ),
    decreases object, n,
{
    if n > 0 {
        lemma_failure_in_fields(object, schema, declared, (n - 1) as nat);
        let field = declared[n - 1];
        let before = compile_fields(object, schema, declared, (n - 1) as nat);
        let last = compile_field(object, schema, field);
        if object.contains_key(field.name) {
            lemma_failure(object[field.name], schema, field.ty, field.ty.is_optional());
            assert(last is Err <==> meets_unsupported(object[field.name], schema, field.ty));
        } else {
            assert(last is Ok);
        }
        assert(compile_fields(object, schema, declared, n) is Err <==> (before is Err
            || last is Err));
    }
}

/// Something unsupported in a list is something unsupported in one of its
/// items.
pub proof fn lemma_unsupported_item(
    items: Seq<ValueView>,
    schema: SchemaView,
    element: TypeView,
    n: nat,
)
    requires
        n <= items.len(),
    ensures
        meets_unsupported_in_items(items, schema, element, n) <==> exists|k: int|
            0 <= k < n && #[trigger] meets_unsupported(items[k], schema, element),
    decreases n,
{
    if n > 0 {
        lemma_unsupported_item(items, schema, element, (n - 1) as nat);
        if meets_unsupported_in_items(items, schema, element, n) && !meets_unsupported(
            items[n - 1],
            schema,
            element,
        ) {
            let k = choose|k: int|
                0 <= k < n - 1 && #[trigger] meets_unsupported(items[k], schema, element);
            assert(0 <= k < n && meets_unsupported(items[k], schema, element));
        }
    }
}

/// Something unsupported in an object is something unsupported in what the
/// object supplies for a declared field: what it enters under any other name
/// is never looked at.
pub proof fn lemma_unsupported_field(
    object: Map<Seq<char>, ValueView>,
    schema: SchemaView,
    declared: Seq<FieldView>,
    n: nat,
)
    requires
        n <= declared.len(),
        object.dom().finite(),
    ensures
        meets_unsupported_in_fields(object, schema, declared, n) <==> exists|k: int|
            0 <= k < n && object.contains_key(declared[k].name) && #[trigger] meets_unsupported(
                object[declared[k].name],
                schema,
                declared[k].ty,
            ),
    decreases n,
{
    if n > 0 {
        lemma_unsupported_field(object, schema, declared, (n - 1) as nat);
        let last = declared[n - 1];
        if meets_unsupported_in_fields(object, schema, declared, n) && !(object.contains_key(
            last.name,
        ) && meets_unsupported(object[last.name], schema, last.ty)) {
            let k = choose|k: int|
                0 <= k < n - 1 && object.contains_key(declared[k].name)
                    && #[trigger] meets_unsupported(
                    object[declared[k].name],
                    schema,
                    declared[k].ty,
                );
            assert(0 <= k < n && object.contains_key(declared[k].name) && meets_unsupported(
                object[declared[k].name],
                schema,
                declared[k].ty,
            ));
        }
    }
}

/// Of every literal that the compiler can be handed, with every schema and
/// type: the compilation fails exactly if the compiler meets something
/// unsupported on its way through the literal.
pub proof fn lemma_literal_failure(
    value: Value,
    context: QueryContext,
    ty: FieldType,
    is_optional: bool,
)
    ensures
        compile(value@, context@, ty@, is_optional) is Err <==> meets_unsupported(
            value@,
            context@,
            ty@,
        ),
{
    lemma_model_wf(value);
    lemma_failure(value@, context@, ty@, is_optional);
}

/// A `null` has no expression, in any slot.
pub proof fn lemma_null_fails(schema: SchemaView, ty: TypeView, is_optional: bool)
    ensures
        compile(ValueView::Null, schema, ty, is_optional) == Compiled::<ExprView>::Err(
            ErrorView::here(ErrorKind::NullDefaultUnsupported),
        ),
{
}

/// A variable reference has no expression, in any slot.
pub proof fn lemma_variable_fails(
    name: Seq<char>,
    schema: SchemaView,
    ty: TypeView,
    is_optional: bool,
)
    ensures
        compile(ValueView::Variable(name), schema, ty, is_optional) == Compiled::<ExprView>::Err(
            ErrorView::here(ErrorKind::VariableReferenceInDefault),
        ),
{
}

/// An object literal has no expression where the schema does not declare the
/// type that the slot names, whatever the literal holds.
pub proof fn lemma_unknown_input_type_fails(
    object: Map<Seq<char>, ValueView>,
    schema: SchemaView,
    ty: TypeView,
    is_optional: bool,
)
    requires
        !schema.inputs.contains_key(ty.inner_name()),
    ensures
        compile(ValueView::Object(object), schema, ty, is_optional) == Compiled::<ExprView>::Err(
            ErrorView::here(ErrorKind::UnknownInputType),
        ),
{
}

} // verus!
