//! What holds of every compilation: scalars, lists, objects, and the
//! sameness of repeated runs.

use vstd::prelude::*;
use crate::error::{CompileError, Compiled};
use crate::expr::{result_view, Expr, ExprView, FieldInitView};
use crate::field_type::TypeView;
use crate::literal::{compile, compile_field, compile_fields, compile_items};
use crate::schema::{distinct_names, FieldView, SchemaView};
use crate::value::ValueView;

verus! {

/// The items of a list literal compile one by one, in their order. The first
/// `n` items compile exactly if each of them has an expression in a
/// non-optional slot of the element type; otherwise they fail as the first
/// item without one does.
pub proof fn lemma_compile_items(
    items: Seq<ValueView>,
    schema: SchemaView,
    element: TypeView,
    n: nat,
)
    requires
        n <= items.len(),
    ensures
        match compile_items(items, schema, element, n) {
            Ok(elements) => {
                &&& elements.len() == n
                &&& forall|j: int|
                    0 <= j < n ==> #[trigger] compile(items[j], schema, element, false)
                        == Compiled::Ok(elements[j])
            },
            Err(e) => exists|k: int|
                {
                    &&& 0 <= k < n
                    &&& #[trigger] compile(items[k], schema, element, false)
                        == Compiled::<ExprView>::Err(e)
                    &&& forall|j: int|
                        0 <= j < k ==> (#[trigger] compile(items[j], schema, element, false)) is Ok
                },
        },
    decreases n,
{
    if n > 0 {
        lemma_compile_items(items, schema, element, (n - 1) as nat);
        let last = compile(items[n - 1], schema, element, false);
        match compile_items(items, schema, element, (n - 1) as nat) {
            Ok(elements) => match last {
                Ok(e) => {
                    let all = elements.push(e);
                    assert forall|j: int| 0 <= j < n implies #[trigger] compile(
                        items[j],
                        schema,
                        element,
                        false,
                    ) == Compiled::Ok(all[j]) by {
                        if j < n - 1 {
                            assert(all[j] == elements[j]);
                        }
                    }
                },
                Err(e) => {
                    assert(last == Compiled::<ExprView>::Err(e));
                },
            },
            Err(e) => {},
        }
    }
}

/// Where each item of a list has an expression, the list compiles to these
/// expressions, in the order of the items.
pub proof fn lemma_items_compile(
    items: Seq<ValueView>,
    schema: SchemaView,
    element: TypeView,
    elements: Seq<ExprView>,
)
    requires
        elements.len() == items.len(),
        forall|j: int|
            0 <= j < items.len() ==> #[trigger] compile(items[j], schema, element, false)
                == Compiled::Ok(elements[j]),
    ensures
        compile_items(items, schema, element, items.len()) == Compiled::Ok(elements),
{
    lemma_compile_items(items, schema, element, items.len());
    let compiled = compile_items(items, schema, element, items.len());
    if compiled is Err {
        let k = choose|k: int|
            0 <= k < items.len() && (#[trigger] compile(items[k], schema, element, false)) is Err;
        assert(compile(items[k], schema, element, false) is Ok);
    }
    assert forall|j: int| 0 <= j < items.len() implies compiled->Ok_0[j] == elements[j] by {
        assert(compile(items[j], schema, element, false) is Ok);
    }
    assert(compiled->Ok_0 =~= elements);
}

/// Where the item at `k` is the first of a list without an expression, the
/// list fails as that item does.
pub proof fn lemma_items_fail(
    items: Seq<ValueView>,
    schema: SchemaView,
    element: TypeView,
    k: int,
)
    requires
        0 <= k < items.len(),
        forall|j: int| 0 <= j < k ==> (#[trigger] compile(items[j], schema, element, false)) is Ok,
        compile(items[k], schema, element, false) is Err,
    ensures
        compile_items(items, schema, element, items.len()) == Compiled::<Seq<ExprView>>::Err(
            compile(items[k], schema, element, false)->Err_0,
        ),
{
    lemma_compile_items(items, schema, element, items.len());
}

/// The declared fields of an input type are initialised one by one, in their
/// declared order. The first `n` of them compile exactly if each has an
/// initialiser; otherwise they fail as the first field without one does.
pub proof fn lemma_compile_fields(
    object: Map<Seq<char>, ValueView>,
    schema: SchemaView,
    declared: Seq<FieldView>,
    n: nat,
)
    requires
        n <= declared.len(),
        object.dom().finite(),
    ensures
        match compile_fields(object, schema, declared, n) {
            Ok(fields) => {
                &&& fields.len() == n
                &&& forall|j: int|
                    0 <= j < n ==> #[trigger] compile_field(object, schema, declared[j])
                        == Compiled::Ok(fields[j])
            },
            Err(e) => exists|k: int|
                {
                    &&& 0 <= k < n
                    &&& #[trigger] compile_field(object, schema, declared[k])
                        == Compiled::<FieldInitView>::Err(e)
                    &&& forall|j: int|
                        0 <= j < k ==> (#[trigger] compile_field(object, schema, declared[j])) is Ok
                },
        },
    decreases n,
{
    if n > 0 {
        lemma_compile_fields(object, schema, declared, (n - 1) as nat);
        let last = compile_field(object, schema, declared[n - 1]);
        match compile_fields(object, schema, declared, (n - 1) as nat) {
            Ok(fields) => match last {
                Ok(field) => {
                    let all = fields.push(field);
                    assert forall|j: int| 0 <= j < n implies #[trigger] compile_field(
                        object,
                        schema,
                        declared[j],
                    ) == Compiled::Ok(all[j]) by {
                        if j < n - 1 {
                            assert(all[j] == fields[j]);
                        }
                    }
                },
                Err(e) => {
                    assert(last == Compiled::<FieldInitView>::Err(e));
                },
            },
            Err(e) => {},
        }
    }
}

/// Where each declared field has an initialiser, the object's fields compile
/// to these initialisers, in the declared order.
pub proof fn lemma_fields_compile(
    object: Map<Seq<char>, ValueView>,
    schema: SchemaView,
    declared: Seq<FieldView>,
    fields: Seq<FieldInitView>,
)
    requires
        object.dom().finite(),
        fields.len() == declared.len(),
        forall|j: int|
            0 <= j < declared.len() ==> #[trigger] compile_field(object, schema, declared[j])
                == Compiled::Ok(fields[j]),
    ensures
        compile_fields(object, schema, declared, declared.len()) == Compiled::Ok(fields),
{
    lemma_compile_fields(object, schema, declared, declared.len());
    let compiled = compile_fields(object, schema, declared, declared.len());
    if compiled is Err {
        let k = choose|k: int|
            0 <= k < declared.len() && (#[trigger] compile_field(
                object,
                schema,
                declared[k],
            )) is Err;
        assert(compile_field(object, schema, declared[k]) is Ok);
    }
    assert forall|j: int| 0 <= j < declared.len() implies compiled->Ok_0[j] == fields[j] by {
        assert(compile_field(object, schema, declared[j]) is Ok);
    }
    assert(compiled->Ok_0 =~= fields);
}

/// Where the declared field at `k` is the first without an initialiser, the
/// object's fields fail as that field does.
pub proof fn lemma_fields_fail(
    object: Map<Seq<char>, ValueView>,
    schema: SchemaView,
    declared: Seq<FieldView>,
    k: int,
)
    requires
        object.dom().finite(),
        0 <= k < declared.len(),
        forall|j: int|
            0 <= j < k ==> (#[trigger] compile_field(object, schema, declared[j])) is Ok,
        compile_field(object, schema, declared[k]) is Err,
    ensures
        compile_fields(object, schema, declared, declared.len()) == Compiled::<
            Seq<FieldInitView>,
        >::Err(compile_field(object, schema, declared[k])->Err_0),
{
    lemma_compile_fields(object, schema, declared, declared.len());
}

/// Whether a literal is a scalar: a boolean, a string, a number or an enum
/// constant.
pub open spec fn is_scalar(value: ValueView) -> bool {
    value is Boolean || value is String || value is Int || value is Float || value is Enum
}

/// The expression that holds the same payload as a scalar literal.
pub open spec fn scalar_expr(value: ValueView) -> ExprView
    recommends
        is_scalar(value),
{
    match value {
        ValueView::Boolean(b) => ExprView::Bool(b),
        ValueView::String(s) => ExprView::Str(s),
        ValueView::Int(i) => ExprView::Int(i),
        ValueView::Float(bits) => ExprView::Float(bits),
        ValueView::Enum(name) => ExprView::Path(name),
        _ => arbitrary(),
    }
}

/// In a slot that is not optional, a scalar literal compiles to the expression
/// with the same payload, unwrapped, whatever the type and the schema.
pub proof fn lemma_scalar_required(value: ValueView, schema: SchemaView, ty: TypeView)
    requires
        is_scalar(value),
    ensures
        compile(value, schema, ty, false) == Compiled::Ok(scalar_expr(value)),
{
}

/// In an optional slot, a scalar literal compiles to the expression with the
/// same payload, marked present once.
pub proof fn lemma_scalar_optional(value: ValueView, schema: SchemaView, ty: TypeView)
    requires
        is_scalar(value),
    ensures
        compile(value, schema, ty, true) == Compiled::Ok(
            ExprView::Present(Box::new(scalar_expr(value))),
        ),
{
}

/// Whatever compiles in a slot that is not optional compiles in an optional
/// one to the same expression, marked present once; and whatever fails, fails
/// alike in both.
pub proof fn lemma_optional_slot(value: ValueView, schema: SchemaView, ty: TypeView)
    ensures
        match compile(value, schema, ty, false) {
            Ok(e) => compile(value, schema, ty, true) == Compiled::Ok(
                ExprView::Present(Box::new(e)),
            ),
            Err(e) => compile(value, schema, ty, true) == Compiled::<ExprView>::Err(e),
        },
{
}

/// A list literal that compiles gives a sequence of as many elements as the
/// list has items, in the order of the items. Each element is its item
/// compiled against the list's element type in a slot that is not optional,
/// whether or not the element type is itself optional.
pub proof fn lemma_list_elements(
    items: Seq<ValueView>,
    schema: SchemaView,
    ty: TypeView,
    is_optional: bool,
)
    requires
        compile(ValueView::List(items), schema, ty, is_optional) is Ok,
    ensures
        ({
            let elements = compile_items(items, schema, ty.element_type(), items.len())->Ok_0;
            &&& compile(ValueView::List(items), schema, ty, is_optional) == Compiled::Ok(
                ExprView::Sequence(elements).in_slot(is_optional),
            )
            &&& elements.len() == items.len()
            &&& forall|j: int|
                0 <= j < items.len() ==> #[trigger] compile(
                    items[j],
                    schema,
                    ty.element_type(),
                    false,
                ) == Compiled::Ok(elements[j])
        }),
{
    lemma_compile_items(items, schema, ty.element_type(), items.len());
}

/// An object literal that compiles gives a value of the input type that the
/// slot's type names, with exactly one initialiser for each field that the
/// schema declares for that type, under the field's name and in the declared
/// order: a field that the literal supplies is compiled against the field's
/// own type and optionality, any other is absent. What the literal enters
/// under a name that is not declared does not appear.
pub proof fn lemma_object_fields(
    object: Map<Seq<char>, ValueView>,
    schema: SchemaView,
    ty: TypeView,
    is_optional: bool,
)
    requires
        object.dom().finite(),
        schema.wf(),
        compile(ValueView::Object(object), schema, ty, is_optional) is Ok,
    ensures
        schema.inputs.contains_key(ty.inner_name()),
        ({
            let declared = schema.inputs[ty.inner_name()];
            let fields = compile_fields(object, schema, declared, declared.len())->Ok_0;
            &&& compile(ValueView::Object(object), schema, ty, is_optional) == Compiled::Ok(
                ExprView::Construct { constructor: ty.inner_name(), fields }.in_slot(is_optional),
            )
            &&& fields.len() == declared.len()
            &&& forall|j: int|
                0 <= j < declared.len() ==> (#[trigger] fields[j]).name == declared[j].name
            &&& forall|i: int, j: int|
                0 <= i < j < fields.len() ==> (#[trigger] fields[i]).name != (
                #[trigger] fields[j]).name
            &&& forall|j: int|
                0 <= j < declared.len() && !object.contains_key(declared[j].name) ==> (
                #[trigger] fields[j]).value == ExprView::Absent
            &&& forall|j: int|
                0 <= j < declared.len() && object.contains_key(declared[j].name) ==> compile(
                    object[declared[j].name],
                    schema,
                    declared[j].ty,
                    declared[j].ty.is_optional(),
                ) == Compiled::Ok((#[trigger] fields[j]).value)
        }),
{
    let declared = schema.inputs[ty.inner_name()];
    lemma_compile_fields(object, schema, declared, declared.len());
    let fields = compile_fields(object, schema, declared, declared.len())->Ok_0;
    assert forall|j: int| 0 <= j < declared.len() implies {
        &&& (#[trigger] fields[j]).name == declared[j].name
        &&& !object.contains_key(declared[j].name) ==> fields[j].value == ExprView::Absent
        &&& object.contains_key(declared[j].name) ==> compile(
            object[declared[j].name],
            schema,
            declared[j].ty,
            declared[j].ty.is_optional(),
        ) == Compiled::Ok(fields[j].value)
    } by {
        assert(compile_field(object, schema, declared[j]) == Compiled::Ok(fields[j]));
    }
    assert(distinct_names(declared));
    assert forall|i: int, j: int| 0 <= i < j < fields.len() implies (#[trigger] fields[i]).name
        != (#[trigger] fields[j]).name by {
        assert(declared[i].name != declared[j].name);
    }
}

/// Compiling twice gives the same: whatever two runs of the compiler return
/// for literals, types and schemas with equal models and for the same
/// optionality, the two outcomes have equal models.
pub proof fn lemma_compile_deterministic(
    first: Result<Expr, CompileError>,
    second: Result<Expr, CompileError>,
    value: ValueView,
    schema: SchemaView,
    ty: TypeView,
    is_optional: bool,
)
    requires
        result_view(first) == compile(value, schema, ty, is_optional),
        result_view(second) == compile(value, schema, ty, is_optional),
    ensures
        result_view(first) == result_view(second),
        first is Ok <==> second is Ok,
        first is Ok ==> first->Ok_0@ == second->Ok_0@,
        first is Err ==> first->Err_0@ == second->Err_0@,
{
}

/// Stripping the nearest list wrapper leaves the innermost name as it is, so
/// every object within a list is built as the type that the list's own type
/// names.
pub proof fn lemma_element_type_keeps_name(ty: TypeView)
    ensures
        ty.element_type().inner_name() == ty.inner_name(),
    decreases ty,
{
    match ty {
        TypeView::Optional(inner) => lemma_element_type_keeps_name(*inner),
        _ => {},
    }
}

} // verus!
