use dry_validation_gen::ast::{Item, RootSchema, Schema, Type, Validation};
use dry_validation_gen::ast_builder::build;
use dry_validation_gen::codegen::{generate, generate_as, indent};
use dry_validation_gen::ir::{lower, lower_schema, Def, Each, Macro, Predicate, SchemaClass, Stmt, ValueType};
use dry_validation_gen::openapi::{
    Operation, Parameter, ParameterData, ParameterFormat, ParameterRef, SchemaKind, SchemaRef,
    TypeDesc,
};
use dry_validation_gen::pipeline::generate_operation;

fn data(name: &str, required: bool, format: ParameterFormat) -> ParameterData {
    ParameterData { name: name.to_string(), required, format }
}

fn query(name: &str, required: bool, schema: SchemaRef) -> ParameterRef {
    ParameterRef::Item(Parameter::Query(data(name, required, ParameterFormat::Schema(schema))))
}

fn ty(t: TypeDesc) -> SchemaRef {
    SchemaRef::Item(SchemaKind::Type(t))
}

fn op(id: Option<&str>, parameters: Vec<ParameterRef>) -> Operation {
    Operation { operation_id: id.map(|s| s.to_string()), parameters }
}

#[test]
fn empty_operation_renders_empty_block() {
    let g = generate_operation("/test/example".to_string(), &op(Some("testExample"), vec![]));
    assert_eq!(g.code.as_deref(), Some("TestExample = Dry::Schema::Params do\nend\n"));
    assert!(g.diagnostics.is_empty());
}

#[test]
fn scalar_lines_without_constraints() {
    let g = generate_operation(
        "/p".to_string(),
        &op(
            Some("scalars"),
            vec![
                query("a", true, ty(TypeDesc::Integer { minimum: None, maximum: None })),
                query("b", false, ty(TypeDesc::String { min_length: None, max_length: None })),
                query("c", true, ty(TypeDesc::Boolean)),
            ],
        ),
    );
    assert_eq!(
        g.code.as_deref(),
        Some("Scalars = Dry::Schema::Params do\n  required(:a).value(:integer)\n  optional(:b).value(:string)\n  required(:c).value(:boolean)\nend\n")
    );
}

#[test]
fn integer_bounds_negative_and_extreme() {
    let g = generate_operation(
        "/p".to_string(),
        &op(
            Some("bounds"),
            vec![
                query("n", true, ty(TypeDesc::Integer { minimum: Some(i64::MIN), maximum: Some(-7) })),
                query("z", true, ty(TypeDesc::Integer { minimum: Some(0), maximum: Some(i64::MAX) })),
            ],
        ),
    );
    assert_eq!(
        g.code.as_deref(),
        Some("Bounds = Dry::Schema::Params do\n  required(:n).value(:integer, max: -7, min: -9223372036854775808)\n  required(:z).value(:integer, max: 9223372036854775807, min: 0)\nend\n")
    );
}

#[test]
fn single_bounds_render_alone() {
    let g = generate_operation(
        "/p".to_string(),
        &op(
            Some("single"),
            vec![
                query("lo", false, ty(TypeDesc::Integer { minimum: Some(3), maximum: None })),
                query("hi", false, ty(TypeDesc::String { min_length: None, max_length: Some(40) })),
                query("few", false, ty(TypeDesc::Array { items: None, min_items: Some(1), max_items: None })),
            ],
        ),
    );
    assert_eq!(
        g.code.as_deref(),
        Some("Single = Dry::Schema::Params do\n  optional(:lo).value(:integer, min: 3)\n  optional(:hi).value(:string, max_size: 40)\n  optional(:few).value(:array, min_size: 1)\nend\n")
    );
}

#[test]
fn array_bounds_without_items() {
    let g = generate_operation(
        "/p".to_string(),
        &op(
            Some("arr"),
            vec![query("ids", true, ty(TypeDesc::Array { items: None, min_items: Some(0), max_items: Some(100) }))],
        ),
    );
    assert_eq!(
        g.code.as_deref(),
        Some("Arr = Dry::Schema::Params do\n  required(:ids).value(:array, max_size: 100, min_size: 0)\nend\n")
    );
    assert!(g.diagnostics.is_empty());
}

#[test]
fn pascal_case_is_idempotent() {
    let first = generate_operation("/p".to_string(), &op(Some("test_example"), vec![]));
    let again = generate_operation("/p".to_string(), &op(Some("TestExample"), vec![]));
    assert_eq!(first.code, again.code);
    assert_eq!(again.code.as_deref(), Some("TestExample = Dry::Schema::Params do\nend\n"));
}

#[test]
fn missing_operation_id_gives_no_code() {
    let g = generate_operation(
        "/users".to_string(),
        &op(None, vec![query("a", true, ty(TypeDesc::Boolean))]),
    );
    assert_eq!(g.code, None);
    assert_eq!(g.diagnostics, vec!["operation_id is not found in /users".to_string()]);
}

#[test]
fn unsupported_constructs_are_reported_with_placeholders() {
    let g = generate_operation(
        "/users".to_string(),
        &op(
            Some("listUsers"),
            vec![
                ParameterRef::Reference("#/components/parameters/limit".to_string()),
                ParameterRef::Item(Parameter::Header(data("x-token", true, ParameterFormat::Schema(ty(TypeDesc::Boolean))))),
                ParameterRef::Item(Parameter::Path(data("id", true, ParameterFormat::Schema(ty(TypeDesc::Boolean))))),
                ParameterRef::Item(Parameter::Cookie(data("session", false, ParameterFormat::Schema(ty(TypeDesc::Boolean))))),
                ParameterRef::Item(Parameter::Query(data("filter", false, ParameterFormat::Content))),
                query("one", false, SchemaRef::Item(SchemaKind::OneOf)),
                query("all", false, SchemaRef::Item(SchemaKind::AllOf)),
                query("anyof", false, SchemaRef::Item(SchemaKind::AnyOf)),
                query("not", false, SchemaRef::Item(SchemaKind::Not)),
                query("any", false, SchemaRef::Item(SchemaKind::Any)),
                query("num", false, ty(TypeDesc::Number)),
                query("obj", false, ty(TypeDesc::Object)),
                query("linked", false, SchemaRef::Reference("#/components/schemas/Id".to_string())),
                query("page", true, ty(TypeDesc::Integer { minimum: Some(1), maximum: None })),
            ],
        ),
    );
    let expected: Vec<String> = vec![
        "`Reference` is not supported in #/components/parameters/limit in /users listUsers",
        "`Header` is not supported in x-token in /users listUsers",
        "`Path` is not supported in id in /users listUsers",
        "`Cookie` is not supported in session in /users listUsers",
        "`Content` is not supported in /users listUsers",
        "`OneOf` is not supported in one in /users listUsers",
        "`AllOf` is not supported in all in /users listUsers",
        "`AnyOf` is not supported in anyof in /users listUsers",
        "`Not` is not supported in not in /users listUsers",
        "`Any` is not supported in any in /users listUsers",
        "`Number` is not supported in num in /users listUsers",
        "`Object` is not supported in obj in /users listUsers",
        "`Reference` is not supported in linked in /users listUsers",
    ]
    .into_iter()
    .map(|s| s.to_string())
    .collect();
    assert_eq!(g.diagnostics, expected);
    assert_eq!(
        g.code.as_deref(),
        Some("ListUsers = Dry::Schema::Params do\n  optional(:#/components/parameters/limit).value(:integer)\n  required(:x-token).value(:integer)\n  required(:id).value(:integer)\n  optional(:session).value(:integer)\n  optional(:filter).value(:integer)\n  optional(:one).value(:integer)\n  optional(:all).value(:integer)\n  optional(:anyof).value(:integer)\n  optional(:not).value(:integer)\n  optional(:any).value(:integer)\n  optional(:num).value(:integer)\n  optional(:obj).value(:integer)\n  optional(:linked).value(:integer)\n  required(:page).value(:integer, min: 1)\nend\n")
    );
}

#[test]
fn unsupported_items_keep_the_array() {
    let g = generate_operation(
        "/p".to_string(),
        &op(
            Some("items"),
            vec![query(
                "tags",
                true,
                ty(TypeDesc::Array {
                    items: Some(Box::new(ty(TypeDesc::Array {
                        items: Some(Box::new(SchemaRef::Item(SchemaKind::OneOf))),
                        min_items: None,
                        max_items: Some(3),
                    }))),
                    min_items: None,
                    max_items: None,
                }),
            )],
        ),
    );
    assert_eq!(g.diagnostics, vec!["`OneOf` is not supported in tags in /p items".to_string()]);
    assert_eq!(
        g.code.as_deref(),
        Some("Items = Dry::Schema::Params do\n  required(:tags).value(:array).each(:array?, max_size: 3)\nend\n")
    );
}

#[test]
fn two_levels_give_one_block() {
    let int_items = ty(TypeDesc::Integer { minimum: None, maximum: None });
    let inner = ty(TypeDesc::Array { items: Some(Box::new(int_items)), min_items: None, max_items: None });
    let g = generate_operation(
        "/p".to_string(),
        &op(
            Some("grid"),
            vec![query(
                "cells",
                false,
                ty(TypeDesc::Array { items: Some(Box::new(inner)), min_items: None, max_items: None }),
            )],
        ),
    );
    assert_eq!(
        g.code.as_deref(),
        Some("Grid = Dry::Schema::Params do\n  optional(:cells).value(:array).each(:array?) do\n    schema(:array?).each(:int?)\n  end\nend\n")
    );
}

#[test]
fn build_reports_in_order_with_placeholders() {
    let operation = op(
        Some("x"),
        vec![
            query("a", true, ty(TypeDesc::Boolean)),
            ParameterRef::Reference("r".to_string()),
            query("b", false, ty(TypeDesc::String { min_length: Some(2), max_length: None })),
        ],
    );
    let r = build("/q".to_string(), &operation);
    assert_eq!(r.errors, vec!["`Reference` is not supported in r in /q x".to_string()]);
    assert_eq!(
        r.ast,
        RootSchema {
            name: Some("x".to_string()),
            parameters: vec![
                Schema { name: "a".to_string(), required: true, ty: Type::Boolean, validates: vec![] },
                Schema { name: "r".to_string(), required: false, ty: Type::Integer, validates: vec![] },
                Schema {
                    name: "b".to_string(),
                    required: false,
                    ty: Type::String,
                    validates: vec![Validation::MinLength(2)],
                },
            ],
        }
    );
}

#[test]
fn lower_needs_a_name() {
    let root = RootSchema { name: None, parameters: vec![] };
    assert!(lower(&root).is_none());
}

#[test]
fn lower_builds_blocks_for_nested_arrays() {
    let s = Schema {
        name: "m".to_string(),
        required: false,
        ty: Type::Array(Some(Box::new(Item {
            ty: Type::Array(Some(Box::new(Item { ty: Type::String, validates: vec![Validation::MaxLength(5)] }))),
            validates: vec![Validation::MinItems(1)],
        }))),
        validates: vec![],
    };
    let st = lower_schema(&s);
    assert_eq!(
        st,
        Stmt::Optional {
            name: "m".to_string(),
            rule: Macro::Value {
                ty: ValueType::Array,
                validations: vec![],
                each: Some(Each::Block {
                    validations: vec![Validation::MinItems(1)],
                    nested: Box::new(Each::Inline {
                        predicate: Predicate::Str,
                        validations: vec![Validation::MaxLength(5)],
                    }),
                }),
            },
        }
    );
}

#[test]
fn generate_renders_a_definition() {
    let def = Def {
        name: "get-user-by-id".to_string(),
        class: SchemaClass::Params,
        block: vec![Stmt::Required {
            name: "id".to_string(),
            rule: Macro::Value { ty: ValueType::Integer, validations: vec![Validation::Min(1)], each: None },
        }],
    };
    assert_eq!(generate(&def), "GetUserById = Dry::Schema::Params do\n  required(:id).value(:integer, min: 1)\nend\n");
    assert_eq!(
        generate_as(&"get-user-by-id".to_string(), &def),
        "get-user-by-id = Dry::Schema::Params do\n  required(:id).value(:integer, min: 1)\nend\n"
    );
}

#[test]
fn indent_is_two_spaces_per_level() {
    assert_eq!(indent(0), "");
    assert_eq!(indent(3), "      ");
}

fn render(parameters: Vec<Schema>) -> String {
    let root = RootSchema { name: Some("testExample".to_string()), parameters };
    generate(&lower(&root).unwrap())
}

fn param(name: &str, required: bool, ty: Type, validates: Vec<Validation>) -> Schema {
    Schema { name: name.to_string(), required, ty, validates }
}

fn item(ty: Type, validates: Vec<Validation>) -> Option<Box<Item>> {
    Some(Box::new(Item { ty, validates }))
}

#[test]
fn upper_bounds_render_first_whatever_the_list_order() {
    assert_eq!(
        render(vec![param("user_id", true, Type::Integer, vec![Validation::Min(10), Validation::Max(20)])]),
        "TestExample = Dry::Schema::Params do\n  required(:user_id).value(:integer, max: 20, min: 10)\nend\n"
    );
    assert_eq!(
        render(vec![param("user_id", true, Type::String, vec![Validation::MinLength(10), Validation::MaxLength(20)])]),
        "TestExample = Dry::Schema::Params do\n  required(:user_id).value(:string, max_size: 20, min_size: 10)\nend\n"
    );
    assert_eq!(
        render(vec![param("user_id", true, Type::Array(None), vec![Validation::MinItems(5), Validation::MaxItems(10)])]),
        "TestExample = Dry::Schema::Params do\n  required(:user_id).value(:array, max_size: 10, min_size: 5)\nend\n"
    );
}

#[test]
fn item_bounds_render_upper_first() {
    let code = render(vec![
        param(
            "integer_item",
            false,
            Type::Array(item(Type::Integer, vec![Validation::Min(3), Validation::Max(4)])),
            vec![Validation::MinItems(1), Validation::MaxItems(2)],
        ),
        param(
            "array_item",
            false,
            Type::Array(item(Type::Array(None), vec![Validation::MinItems(13), Validation::MaxItems(14)])),
            vec![Validation::MinItems(11), Validation::MaxItems(12)],
        ),
    ]);
    assert_eq!(
        code,
        "TestExample = Dry::Schema::Params do\n  optional(:integer_item).value(:array, max_size: 2, min_size: 1).each(:int?, max: 4, min: 3)\n  optional(:array_item).value(:array, max_size: 12, min_size: 11).each(:array?, max_size: 14, min_size: 13)\nend\n"
    );
}

#[test]
fn nested_bounds_render_upper_first_at_every_level() {
    let innermost = Type::Array(None);
    let level3 = Type::Array(item(innermost, vec![Validation::MinItems(29), Validation::MaxItems(30)]));
    let level2 = Type::Array(item(level3, vec![Validation::MinItems(27), Validation::MaxItems(28)]));
    let level1 = Type::Array(item(level2, vec![Validation::MinItems(25), Validation::MaxItems(26)]));
    let code = render(vec![param(
        "nested_array",
        true,
        level1,
        vec![Validation::MinItems(23), Validation::MaxItems(24)],
    )]);
    assert_eq!(
        code,
        "TestExample = Dry::Schema::Params do\n  required(:nested_array).value(:array, max_size: 24, min_size: 23).each(:array?, max_size: 26, min_size: 25) do\n    schema(:array?).each(:array?, max_size: 28, min_size: 27) do\n      schema(:array?).each(:array?, max_size: 30, min_size: 29)\n    end\n  end\nend\n"
    );
}
