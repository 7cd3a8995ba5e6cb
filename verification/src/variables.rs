//! Query variables and the compilation of their default values.

use vstd::prelude::*;
use crate::error::{CompileError, Compiled, ErrorKind};
use crate::expr::{result_view, Expr, ExprView, FieldInit, FieldInitView};
use crate::field_type::{FieldType, TypeView};
use crate::laws::{lemma_fields_compile, lemma_fields_fail, lemma_items_compile, lemma_items_fail};
use crate::literal::{compile, compile_field, object_literal};
use crate::query::QueryContext;
use crate::schema::SchemaView;
use crate::value::{lemma_fields_model_finite, position, ObjectField, Value, ValueView};

verus! {

/// The mathematical model of a constructor function: a function without
/// parameters, `name() -> return_type { body }`.
pub struct ConstructorView {
    pub name: Seq<char>,
    pub return_type: Seq<char>,
    pub body: ExprView,
}

/// The constructor function of a variable's default value, as a fragment of
/// the generated code: `name() -> return_type { body }`.
#[derive(Debug, PartialEq)]
pub struct DefaultConstructor {
    pub name: String,
    pub return_type: String,
    pub body: Expr,
}

impl View for DefaultConstructor {
    type V = ConstructorView;

    open spec fn view(&self) -> ConstructorView {
        ConstructorView { name: self.name@, return_type: self.return_type@, body: self.body@ }
    }
}

/// The outcome of emitting a constructor function as a mathematical value.
pub open spec fn fragment_view(
    result: Result<Option<DefaultConstructor>, CompileError>,
) -> Compiled<Option<ConstructorView>> {
    match result {
        Ok(Some(constructor)) => Ok(Some(constructor@)),
        Ok(None) => Ok(None),
        Err(e) => Err(e@),
    }
}

/// The name of the constructor function of the variable `name`.
pub open spec fn constructor_name(name: Seq<char>) -> Seq<char> {
    "default_"@ + name
}

/// What a variable's declaration yields: nothing where it has no default,
/// else the constructor function `default_<name>`, which returns the host
/// type and whose body is the default compiled in a slot of the variable's
/// type, optional exactly if that type's outermost wrapper is.
pub open spec fn default_constructor(
    name: Seq<char>,
    ty: TypeView,
    default: Option<ValueView>,
    schema: SchemaView,
    host_type: Seq<char>,
) -> Compiled<Option<ConstructorView>> {
    match default {
        None => Ok(None),
        Some(value) => match compile(value, schema, ty, ty.is_optional()) {
            Ok(body) => Ok(
                Some(
                    ConstructorView { name: constructor_name(name), return_type: host_type, body },
                ),
            ),
            Err(e) => Err(e),
        },
    }
}

/// A variable of a query operation: its name, its type and, where the query
/// gives one, its default value.
#[derive(Debug, PartialEq)]
pub struct Variable {
    pub name: String,
    pub ty: FieldType,
    pub default: Option<Value>,
}

impl Variable {
    /// The default value as a mathematical value, if there is one.
    pub open spec fn default_view(&self) -> Option<ValueView> {
        match self.default {
            Some(value) => Some(value@),
            None => None,
        }
    }

    /// Emits the constructor function of the variable's default value, or
    /// nothing where the variable has no default. `host_type` is the name of
    /// the host-language type that corresponds to the variable's type; it
    /// becomes the function's return type as it is.
    pub fn generate_default_value_constructor(
        &self,
        context: &QueryContext,
        host_type: String,
    ) -> (result: Result<Option<DefaultConstructor>, CompileError>)
        ensures
            fragment_view(result) == default_constructor(
                self.name@,
                self.ty@,
                self.default_view(),
                context@,
                host_type@,
            ),
    {
        match &self.default {
            Some(default) => {
                let name = String::from_str("default_").concat(self.name.as_str());
                match graphql_parser_value_to_literal(
                    default,
                    context,
                    &self.ty,
                    self.ty.is_optional(),
                ) {
                    Ok(body) => Ok(Some(DefaultConstructor { name, return_type: host_type, body })),
                    Err(e) => Err(e),
                }
            },
            None => Ok(None),
        }
    }
}

/// Compiles a literal into the expression that builds it in a slot of type
/// `ty` with the given optionality.
pub fn graphql_parser_value_to_literal(
    value: &Value,
    context: &QueryContext,
    ty: &FieldType,
    is_optional: bool,
) -> (result: Result<Expr, CompileError>)
    ensures
        result_view(result) == compile(value@, context@, ty@, is_optional),
    decreases value,
{
    let inner = match value {
        Value::Boolean(b) => Expr::Bool(*b),
        Value::String(s) => Expr::Str(s.clone()),
        Value::Variable(_) => {
            return Err(CompileError::here(ErrorKind::VariableReferenceInDefault));
        },
        Value::Null => {
            return Err(CompileError::here(ErrorKind::NullDefaultUnsupported));
        },
        Value::Float(bits) => Expr::Float(*bits),
        Value::Int(i) => Expr::Int(*i),
        Value::Enum(name) => Expr::Path(name.clone()),
        Value::List(items) => {
            let element = ty.element_type();
            let ghost views = value@->List_0;
            let mut elements: Vec<Expr> = Vec::new();
            let mut i: usize = 0;
            while i < items.len()
                invariant
                    i <= items.len(),
                    elements.len() == i,
                    value is List && value->List_0 == *items,
                    value@ == ValueView::List(views),
                    element@ == ty@.element_type(),
                    views.len() == items.len(),
                    forall|j: int| 0 <= j < items.len() ==> views[j] == #[trigger] items[j]@,
                    forall|j: int|
                        0 <= j < i ==> #[trigger] compile(
                            views[j],
                            context@,
                            element@,
                            false,
                        ) == Compiled::Ok(elements[j]@),
                decreases items.len() - i,
            {
                match graphql_parser_value_to_literal(&items[i], context, element, false) {
                    Ok(e) => {
                        elements.push(e);
                    },
                    Err(e) => {
                        proof {
                            lemma_items_fail(views, context@, element@, i as int);
                        }
                        return Err(e);
                    },
                }
                i += 1;
            }
            proof {
                lemma_items_compile(
                    views,
                    context@,
                    element@,
                    Expr::Sequence(elements)@->Sequence_0,
                );
            }
            Expr::Sequence(elements)
        },
        Value::Object(fields) => match render_object_literal(fields, ty, context) {
            Ok(e) => e,
            Err(e) => {
                return Err(e);
            },
        },
    };
    Ok(inner.in_slot(is_optional))
}

/// Compiles an object literal into a value of the input type that `ty` names:
/// one initialiser for each field that the schema declares for that type, in
/// the declared order. Entries of the literal under other names are left out.
pub fn render_object_literal(
    object: &Vec<ObjectField>,
    ty: &FieldType,
    context: &QueryContext,
) -> (result: Result<Expr, CompileError>)
    ensures
        result_view(result) == object_literal(Value::object_model(*object), context@, ty@),
    decreases object,
{
    let constructor = ty.inner_name_string();
    let schema_type = match context.schema.input(&constructor) {
        Some(schema_type) => schema_type,
        None => {
            return Err(CompileError::here(ErrorKind::UnknownInputType));
        },
    };
    let ghost supplied = Value::object_model(*object);
    let ghost declared = schema_type@;
    proof {
        lemma_fields_model_finite(*object, object.len() as nat);
    }
    let mut fields: Vec<FieldInit> = Vec::new();
    let mut i: usize = 0;
    while i < schema_type.fields.len()
        invariant
            i <= schema_type.fields.len(),
            fields.len() == i,
            supplied == Value::object_model(*object),
            supplied.dom().finite(),
            declared == schema_type@,
            constructor@ == ty@.inner_name(),
            context@.inputs.contains_key(constructor@),
            context@.inputs[constructor@] == declared,
            forall|j: int|
                0 <= j < i ==> #[trigger] compile_field(supplied, context@, declared[j])
                    == Compiled::Ok(fields[j]@),
        decreases schema_type.fields.len() - i,
    {
        let field = &schema_type.fields[i];
        let init = match position(object, &field.name) {
            Some(k) => match graphql_parser_value_to_literal(
                &object[k].value,
                context,
                &field.type_,
                field.type_.is_optional(),
            ) {
                Ok(e) => e,
                Err(e) => {
                    proof {
                        lemma_fields_fail(supplied, context@, declared, i as int);
                    }
                    return Err(e.under(&field.name));
                },
            },
            None => Expr::Absent,
        };
        fields.push(FieldInit { name: field.name.clone(), value: init });
        i += 1;
    }
    proof {
        lemma_fields_compile(
            supplied,
            context@,
            declared,
            Expr::Construct { constructor, fields }@->Construct_fields,
        );
    }
    Ok(Expr::Construct { constructor, fields })
}

} // verus!
