use graphql_variables::error::{CompileError, ErrorKind};
use graphql_variables::expr::{Expr, FieldInit};
use graphql_variables::field_type::FieldType;
use graphql_variables::query::QueryContext;
use graphql_variables::schema::{GqlInput, GqlObjectField, Schema};
use graphql_variables::value::{position, ObjectField, Value};
use graphql_variables::variables::{
    graphql_parser_value_to_literal, render_object_literal, DefaultConstructor, Variable,
};

fn named(name: &str) -> FieldType {
    FieldType::Named(name.to_string())
}

fn optional(inner: FieldType) -> FieldType {
    FieldType::Optional(Box::new(inner))
}

fn list(inner: FieldType) -> FieldType {
    FieldType::Vector(Box::new(inner))
}

fn entry(name: &str, value: Value) -> ObjectField {
    ObjectField { name: name.to_string(), value }
}

fn init(name: &str, value: Expr) -> FieldInit {
    FieldInit { name: name.to_string(), value }
}

fn failure(kind: ErrorKind) -> CompileError {
    CompileError { kind, path: vec![] }
}

fn failure_under(kind: ErrorKind, path: &[&str]) -> CompileError {
    CompileError { kind, path: path.iter().map(|name| name.to_string()).collect() }
}

fn empty_context() -> QueryContext {
    QueryContext::new(Schema::new())
}

/// A schema with `InputFilter { active: Boolean, name: String }`, both
/// optional, and `Range { low: Int!, high: Int }`.
fn filter_context() -> QueryContext {
    QueryContext {
        schema: Schema {
            inputs: vec![
                GqlInput {
                    name: "InputFilter".to_string(),
                    fields: vec![
                        GqlObjectField { name: "active".to_string(), type_: optional(named("Boolean")) },
                        GqlObjectField { name: "name".to_string(), type_: optional(named("String")) },
                    ],
                },
                GqlInput {
                    name: "Range".to_string(),
                    fields: vec![
                        GqlObjectField { name: "low".to_string(), type_: named("Int") },
                        GqlObjectField { name: "high".to_string(), type_: optional(named("Int")) },
                    ],
                },
            ],
        },
    }
}

#[test]
fn scalars_in_required_slot_are_unwrapped() {
    let ctx = empty_context();
    let ty = named("Anything");
    assert_eq!(
        graphql_parser_value_to_literal(&Value::Boolean(true), &ctx, &ty, false),
        Ok(Expr::Bool(true))
    );
    assert_eq!(
        graphql_parser_value_to_literal(&Value::Boolean(false), &ctx, &ty, false),
        Ok(Expr::Bool(false))
    );
    assert_eq!(
        graphql_parser_value_to_literal(&Value::String("hi".to_string()), &ctx, &ty, false),
        Ok(Expr::Str("hi".to_string()))
    );
    assert_eq!(
        graphql_parser_value_to_literal(&Value::Int(-7), &ctx, &ty, false),
        Ok(Expr::Int(-7))
    );
    assert_eq!(
        graphql_parser_value_to_literal(&Value::Int(i64::MAX), &ctx, &ty, false),
        Ok(Expr::Int(i64::MAX))
    );
    let bits = 2.5f64.to_bits();
    assert_eq!(
        graphql_parser_value_to_literal(&Value::Float(bits), &ctx, &ty, false),
        Ok(Expr::Float(bits))
    );
    assert_eq!(
        graphql_parser_value_to_literal(&Value::Enum("RED".to_string()), &ctx, &ty, false),
        Ok(Expr::Path("RED".to_string()))
    );
}

#[test]
fn scalars_in_optional_slot_are_present() {
    let ctx = empty_context();
    let ty = optional(named("Anything"));
    assert_eq!(
        graphql_parser_value_to_literal(&Value::Boolean(true), &ctx, &ty, true),
        Ok(Expr::Present(Box::new(Expr::Bool(true))))
    );
    assert_eq!(
        graphql_parser_value_to_literal(&Value::String("".to_string()), &ctx, &ty, true),
        Ok(Expr::Present(Box::new(Expr::Str("".to_string()))))
    );
    assert_eq!(
        graphql_parser_value_to_literal(&Value::Int(0), &ctx, &ty, true),
        Ok(Expr::Present(Box::new(Expr::Int(0))))
    );
    let bits = (-0.125f64).to_bits();
    assert_eq!(
        graphql_parser_value_to_literal(&Value::Float(bits), &ctx, &ty, true),
        Ok(Expr::Present(Box::new(Expr::Float(bits))))
    );
    assert_eq!(
        graphql_parser_value_to_literal(&Value::Enum("BLUE".to_string()), &ctx, &ty, true),
        Ok(Expr::Present(Box::new(Expr::Path("BLUE".to_string()))))
    );
}

#[test]
fn float_literal_round_trips_through_its_bits() {
    let ctx = empty_context();
    let result =
        graphql_parser_value_to_literal(&Value::Float(1.5f64.to_bits()), &ctx, &named("Float"), false);
    match result {
        Ok(Expr::Float(bits)) => assert_eq!(f64::from_bits(bits), 1.5f64),
        other => panic!("unexpected {:?}", other),
    }
}

#[test]
fn optionality_of_the_slot_is_the_flag_not_the_type() {
    // The flag decides, whatever wrapper the descriptor has.
    let ctx = empty_context();
    assert_eq!(
        graphql_parser_value_to_literal(&Value::Int(1), &ctx, &optional(named("Int")), false),
        Ok(Expr::Int(1))
    );
    assert_eq!(
        graphql_parser_value_to_literal(&Value::Int(1), &ctx, &named("Int"), true),
        Ok(Expr::Present(Box::new(Expr::Int(1))))
    );
}

#[test]
fn list_keeps_length_and_order() {
    let ctx = empty_context();
    let value = Value::List(vec![Value::Int(3), Value::Int(1), Value::Int(2)]);
    assert_eq!(
        graphql_parser_value_to_literal(&value, &ctx, &list(named("Int")), false),
        Ok(Expr::Sequence(vec![Expr::Int(3), Expr::Int(1), Expr::Int(2)]))
    );
}

#[test]
fn empty_list_compiles_to_empty_sequence() {
    let ctx = empty_context();
    assert_eq!(
        graphql_parser_value_to_literal(&Value::List(vec![]), &ctx, &list(named("Int")), false),
        Ok(Expr::Sequence(vec![]))
    );
    assert_eq!(
        graphql_parser_value_to_literal(&Value::List(vec![]), &ctx, &optional(list(named("Int"))), true),
        Ok(Expr::Present(Box::new(Expr::Sequence(vec![]))))
    );
}

#[test]
fn list_elements_are_never_marked_present() {
    // The element type is optional, yet the elements stand unwrapped.
    let ctx = empty_context();
    let ty = optional(list(optional(named("Int"))));
    let value = Value::List(vec![Value::Int(1), Value::Int(2)]);
    assert_eq!(
        graphql_parser_value_to_literal(&value, &ctx, &ty, true),
        Ok(Expr::Present(Box::new(Expr::Sequence(vec![Expr::Int(1), Expr::Int(2)]))))
    );
}

#[test]
fn nested_lists_compile_level_by_level() {
    let ctx = empty_context();
    let ty = list(list(named("Int")));
    let value = Value::List(vec![
        Value::List(vec![Value::Int(1)]),
        Value::List(vec![]),
        Value::List(vec![Value::Int(2), Value::Int(3)]),
    ]);
    assert_eq!(
        graphql_parser_value_to_literal(&value, &ctx, &ty, false),
        Ok(Expr::Sequence(vec![
            Expr::Sequence(vec![Expr::Int(1)]),
            Expr::Sequence(vec![]),
            Expr::Sequence(vec![Expr::Int(2), Expr::Int(3)]),
        ]))
    );
}

#[test]
fn list_of_objects_uses_the_element_type() {
    let ctx = filter_context();
    let ty = list(named("Range"));
    let value = Value::List(vec![
        Value::Object(vec![entry("low", Value::Int(1)), entry("high", Value::Int(9))]),
        Value::Object(vec![entry("low", Value::Int(2))]),
    ]);
    assert_eq!(
        graphql_parser_value_to_literal(&value, &ctx, &ty, false),
        Ok(Expr::Sequence(vec![
            Expr::Construct {
                constructor: "Range".to_string(),
                fields: vec![
                    init("low", Expr::Int(1)),
                    init("high", Expr::Present(Box::new(Expr::Int(9)))),
                ],
            },
            Expr::Construct {
                constructor: "Range".to_string(),
                fields: vec![init("low", Expr::Int(2)), init("high", Expr::Absent)],
            },
        ]))
    );
}

#[test]
fn object_follows_the_schema_order() {
    // The literal names the fields in the other order, and one more.
    let ctx = filter_context();
    let object = vec![
        entry("extra", Value::Int(5)),
        entry("name", Value::String("n".to_string())),
        entry("active", Value::Boolean(false)),
    ];
    assert_eq!(
        render_object_literal(&object, &named("InputFilter"), &ctx),
        Ok(Expr::Construct {
            constructor: "InputFilter".to_string(),
            fields: vec![
                init("active", Expr::Present(Box::new(Expr::Bool(false)))),
                init("name", Expr::Present(Box::new(Expr::Str("n".to_string())))),
            ],
        })
    );
}

#[test]
fn object_with_no_entries_has_every_field_absent() {
    let ctx = filter_context();
    assert_eq!(
        render_object_literal(&vec![], &named("Range"), &ctx),
        Ok(Expr::Construct {
            constructor: "Range".to_string(),
            fields: vec![init("low", Expr::Absent), init("high", Expr::Absent)],
        })
    );
}

#[test]
fn object_field_optionality_comes_from_the_schema() {
    let ctx = filter_context();
    let object = vec![entry("low", Value::Int(1)), entry("high", Value::Int(2))];
    // `low` is required and stands unwrapped, `high` is optional and is
    // marked present, whatever the slot of the object itself is.
    let expected = Expr::Construct {
        constructor: "Range".to_string(),
        fields: vec![
            init("low", Expr::Int(1)),
            init("high", Expr::Present(Box::new(Expr::Int(2)))),
        ],
    };
    assert_eq!(render_object_literal(&object, &optional(named("Range")), &ctx), Ok(expected));
}

#[test]
fn object_in_optional_slot_is_present_once() {
    let ctx = filter_context();
    let value = Value::Object(vec![entry("low", Value::Int(1))]);
    assert_eq!(
        graphql_parser_value_to_literal(&value, &ctx, &optional(named("Range")), true),
        Ok(Expr::Present(Box::new(Expr::Construct {
            constructor: "Range".to_string(),
            fields: vec![init("low", Expr::Int(1)), init("high", Expr::Absent)],
        })))
    );
}

#[test]
fn object_type_name_strips_every_wrapper() {
    let ctx = filter_context();
    let ty = optional(list(optional(named("Range"))));
    let object = vec![];
    match render_object_literal(&object, &ty, &ctx) {
        Ok(Expr::Construct { constructor, .. }) => assert_eq!(constructor, "Range"),
        other => panic!("unexpected {:?}", other),
    }
}

#[test]
fn last_entry_under_a_name_counts() {
    let ctx = filter_context();
    let object = vec![entry("low", Value::Int(1)), entry("low", Value::Int(2))];
    assert_eq!(position(&object, &"low".to_string()), Some(1));
    assert_eq!(position(&object, &"high".to_string()), None);
    assert_eq!(
        render_object_literal(&object, &named("Range"), &ctx),
        Ok(Expr::Construct {
            constructor: "Range".to_string(),
            fields: vec![init("low", Expr::Int(2)), init("high", Expr::Absent)],
        })
    );
}

#[test]
fn order_of_the_literal_entries_is_irrelevant() {
    let ctx = filter_context();
    let one = vec![entry("low", Value::Int(1)), entry("high", Value::Int(2))];
    let other = vec![entry("high", Value::Int(2)), entry("low", Value::Int(1))];
    assert_eq!(
        render_object_literal(&one, &named("Range"), &ctx),
        render_object_literal(&other, &named("Range"), &ctx)
    );
}

#[test]
fn compiling_twice_gives_the_same() {
    let ctx = filter_context();
    let ty = optional(list(named("InputFilter")));
    let value = Value::List(vec![
        Value::Object(vec![entry("active", Value::Boolean(true))]),
        Value::Object(vec![entry("name", Value::Enum("X".to_string()))]),
    ]);
    let first = graphql_parser_value_to_literal(&value, &ctx, &ty, true);
    let second = graphql_parser_value_to_literal(&value, &ctx, &ty, true);
    assert!(first.is_ok());
    assert_eq!(first, second);
}

#[test]
fn null_fails() {
    let ctx = empty_context();
    assert_eq!(
        graphql_parser_value_to_literal(&Value::Null, &ctx, &optional(named("Int")), true),
        Err(failure(ErrorKind::NullDefaultUnsupported))
    );
    assert_eq!(
        graphql_parser_value_to_literal(&Value::Null, &ctx, &named("Int"), false),
        Err(failure(ErrorKind::NullDefaultUnsupported))
    );
}

#[test]
fn variable_reference_fails() {
    let ctx = empty_context();
    assert_eq!(
        graphql_parser_value_to_literal(&Value::Variable("other".to_string()), &ctx, &named("Int"), false),
        Err(failure(ErrorKind::VariableReferenceInDefault))
    );
}

#[test]
fn unknown_input_type_fails() {
    let ctx = filter_context();
    let value = Value::Object(vec![entry("low", Value::Int(1))]);
    assert_eq!(
        graphql_parser_value_to_literal(&value, &ctx, &named("Missing"), false),
        Err(failure(ErrorKind::UnknownInputType))
    );
    assert_eq!(
        render_object_literal(&vec![], &named("Missing"), &empty_context()),
        Err(failure(ErrorKind::UnknownInputType))
    );
}

#[test]
fn null_deep_in_a_list_fails_the_whole() {
    let ctx = empty_context();
    let value = Value::List(vec![
        Value::List(vec![Value::Int(1)]),
        Value::List(vec![Value::Int(2), Value::Null]),
    ]);
    assert_eq!(
        graphql_parser_value_to_literal(&value, &ctx, &list(list(named("Int"))), false),
        Err(failure(ErrorKind::NullDefaultUnsupported))
    );
}

#[test]
fn variable_deep_in_an_object_fails_the_whole() {
    let ctx = filter_context();
    let value = Value::List(vec![Value::Object(vec![
        entry("low", Value::Int(1)),
        entry("high", Value::Variable("v".to_string())),
    ])]);
    assert_eq!(
        graphql_parser_value_to_literal(&value, &ctx, &list(named("Range")), false),
        Err(failure_under(ErrorKind::VariableReferenceInDefault, &["high"]))
    );
}

#[test]
fn first_failure_in_order_is_reported() {
    let ctx = filter_context();
    let in_list = Value::List(vec![Value::Variable("v".to_string()), Value::Null]);
    assert_eq!(
        graphql_parser_value_to_literal(&in_list, &ctx, &list(named("Int")), false),
        Err(failure(ErrorKind::VariableReferenceInDefault))
    );
    // Fields fail in the schema's order, not in the literal's.
    let object = vec![entry("high", Value::Null), entry("low", Value::Variable("v".to_string()))];
    assert_eq!(
        render_object_literal(&object, &named("Range"), &ctx),
        Err(failure_under(ErrorKind::VariableReferenceInDefault, &["low"]))
    );
}

#[test]
fn null_under_an_undeclared_name_is_not_looked_at() {
    let ctx = filter_context();
    let object = vec![entry("extra", Value::Null), entry("low", Value::Int(1))];
    assert_eq!(
        render_object_literal(&object, &named("Range"), &ctx),
        Ok(Expr::Construct {
            constructor: "Range".to_string(),
            fields: vec![init("low", Expr::Int(1)), init("high", Expr::Absent)],
        })
    );
}

#[test]
fn unknown_type_comes_before_the_fields() {
    let ctx = filter_context();
    let object = vec![entry("low", Value::Null)];
    assert_eq!(
        render_object_literal(&object, &named("Missing"), &ctx),
        Err(failure(ErrorKind::UnknownInputType))
    );
}

#[test]
fn nested_object_of_unknown_type_fails() {
    let ctx = QueryContext {
        schema: Schema {
            inputs: vec![GqlInput {
                name: "Outer".to_string(),
                fields: vec![GqlObjectField { name: "inner".to_string(), type_: named("Inner") }],
            }],
        },
    };
    let value = Value::Object(vec![entry("inner", Value::Object(vec![]))]);
    assert_eq!(
        graphql_parser_value_to_literal(&value, &ctx, &named("Outer"), false),
        Err(failure_under(ErrorKind::UnknownInputType, &["inner"]))
    );
}

#[test]
fn variable_without_default_emits_nothing() {
    let variable = Variable { name: "limit".to_string(), ty: optional(named("Int")), default: None };
    assert_eq!(
        variable.generate_default_value_constructor(&empty_context(), "Option<i64>".to_string()),
        Ok(None)
    );
}

#[test]
fn optional_int_default() {
    let variable = Variable {
        name: "limit".to_string(),
        ty: optional(named("Int")),
        default: Some(Value::Int(10)),
    };
    assert_eq!(
        variable.generate_default_value_constructor(&empty_context(), "Option<i64>".to_string()),
        Ok(Some(DefaultConstructor {
            name: "default_limit".to_string(),
            return_type: "Option<i64>".to_string(),
            body: Expr::Present(Box::new(Expr::Int(10))),
        }))
    );
}

#[test]
fn list_of_string_default() {
    let variable = Variable {
        name: "tags".to_string(),
        ty: list(named("String")),
        default: Some(Value::List(vec![
            Value::String("a".to_string()),
            Value::String("b".to_string()),
        ])),
    };
    assert_eq!(
        variable.generate_default_value_constructor(&empty_context(), "Vec<String>".to_string()),
        Ok(Some(DefaultConstructor {
            name: "default_tags".to_string(),
            return_type: "Vec<String>".to_string(),
            body: Expr::Sequence(vec![Expr::Str("a".to_string()), Expr::Str("b".to_string())]),
        }))
    );
}

#[test]
fn input_filter_default() {
    let variable = Variable {
        name: "filter".to_string(),
        ty: named("InputFilter"),
        default: Some(Value::Object(vec![entry("active", Value::Boolean(true))])),
    };
    assert_eq!(
        variable.generate_default_value_constructor(&filter_context(), "InputFilter".to_string()),
        Ok(Some(DefaultConstructor {
            name: "default_filter".to_string(),
            return_type: "InputFilter".to_string(),
            body: Expr::Construct {
                constructor: "InputFilter".to_string(),
                fields: vec![
                    init("active", Expr::Present(Box::new(Expr::Bool(true)))),
                    init("name", Expr::Absent),
                ],
            },
        }))
    );
}

#[test]
fn failing_default_emits_no_constructor() {
    let null = Variable { name: "a".to_string(), ty: optional(named("Int")), default: Some(Value::Null) };
    assert_eq!(
        null.generate_default_value_constructor(&empty_context(), "Option<i64>".to_string()),
        Err(failure(ErrorKind::NullDefaultUnsupported))
    );
    let reference = Variable {
        name: "b".to_string(),
        ty: named("Int"),
        default: Some(Value::Variable("a".to_string())),
    };
    assert_eq!(
        reference.generate_default_value_constructor(&empty_context(), "i64".to_string()),
        Err(failure(ErrorKind::VariableReferenceInDefault))
    );
    let object = Variable {
        name: "c".to_string(),
        ty: named("Nowhere"),
        default: Some(Value::Object(vec![])),
    };
    assert_eq!(
        object.generate_default_value_constructor(&filter_context(), "Nowhere".to_string()),
        Err(failure(ErrorKind::UnknownInputType))
    );
}

#[test]
fn failure_names_the_fields_that_lead_to_it() {
    let ctx = QueryContext {
        schema: Schema {
            inputs: vec![
                GqlInput {
                    name: "Outer".to_string(),
                    fields: vec![
                        GqlObjectField { name: "plain".to_string(), type_: named("Int") },
                        GqlObjectField { name: "inner".to_string(), type_: list(named("Range")) },
                    ],
                },
                GqlInput {
                    name: "Range".to_string(),
                    fields: vec![
                        GqlObjectField { name: "low".to_string(), type_: named("Int") },
                        GqlObjectField { name: "high".to_string(), type_: optional(named("Int")) },
                    ],
                },
            ],
        },
    };
    let value = Value::Object(vec![
        entry("plain", Value::Int(0)),
        entry(
            "inner",
            Value::List(vec![
                Value::Object(vec![entry("low", Value::Int(1))]),
                Value::Object(vec![entry("high", Value::Null)]),
            ]),
        ),
    ]);
    assert_eq!(
        graphql_parser_value_to_literal(&value, &ctx, &named("Outer"), false),
        Err(failure_under(ErrorKind::NullDefaultUnsupported, &["inner", "high"]))
    );
}

#[test]
fn failure_outside_any_object_has_an_empty_path() {
    let ctx = empty_context();
    let value = Value::List(vec![Value::List(vec![Value::Null])]);
    assert_eq!(
        graphql_parser_value_to_literal(&value, &ctx, &list(list(named("Int"))), false),
        Err(CompileError::here(ErrorKind::NullDefaultUnsupported))
    );
    let moved = CompileError::here(ErrorKind::UnknownInputType)
        .under(&"b".to_string())
        .under(&"a".to_string());
    assert_eq!(moved, failure_under(ErrorKind::UnknownInputType, &["a", "b"]));
}
