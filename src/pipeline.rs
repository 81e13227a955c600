//! The whole translation of one operation, and the text it gives stated
//! directly over the operation.
use vstd::prelude::*;
use crate::ast::{Item, Schema, Type, Validation};
use crate::ast_builder::{
    AstResult,
    ast_built, build, desc_validates, diagnostics, param_built, schema_built, shape_built,
    supported, texts,
};
use crate::codegen::{
    class_text, constraints_text, def_text, each_text, generate, macro_text,
    pascal_of, predicate_token, stmt_text, stmts_text, value_token,
};
use crate::ir::{
    def_lowered, each_lowered, lower, macro_lowered, stmt_lowered, Def, Each, Macro, Predicate,
    SchemaClass, Stmt, ValueType,
};
use crate::openapi::{
    Operation, Parameter, ParameterData, ParameterFormat, ParameterRef, SchemaKind, SchemaRef,
    TypeDesc,
};
use crate::text::indent_text;

verus! {

/// The generated code and the diagnostics of one operation.
pub struct Generated {
    /// `None` when the operation has no operation id to name the definition.
    pub code: Option<String>,
    pub diagnostics: Vec<String>,
}

pub open spec fn desc_value_type(d: &TypeDesc) -> ValueType {
    match d {
        TypeDesc::String { .. } => ValueType::String,
        TypeDesc::Boolean => ValueType::Boolean,
        TypeDesc::Array { .. } => ValueType::Array,
        _ => ValueType::Integer,
    }
}

pub open spec fn desc_predicate(d: &TypeDesc) -> Predicate {
    match d {
        TypeDesc::String { .. } => Predicate::Str,
        TypeDesc::Boolean => Predicate::Bool,
        TypeDesc::Array { .. } => Predicate::Array,
        _ => Predicate::Int,
    }
}

/// The supported items of an array, if any.
pub open spec fn known_items(items: Option<Box<SchemaRef>>) -> Option<SchemaRef> {
    match items {
        Some(b) => if supported(&*b) {
            Some(*b)
        } else {
            None
        },
        None => None,
    }
}

/// The `.each(...)` clause for the supported item schema `r` of an array
/// whose statement stands at `nesting`.
pub open spec fn items_text(r: &SchemaRef, nesting: nat) -> Seq<char>
    decreases r,
{
    match r {
        SchemaRef::Item(SchemaKind::Type(d)) => match d {
            TypeDesc::Array { items: Some(b), .. } => if supported(&**b) {
                ".each(:array?"@ + constraints_text(desc_validates(d)) + ") do\n"@ + indent_text(
                    nesting + 1,
                ) + "schema(:array?)"@ + items_text(&**b, nesting + 1) + "\n"@ + indent_text(
                    nesting,
                ) + "end"@
            } else {
                ".each(:"@ + predicate_token(desc_predicate(d)) + constraints_text(
                    desc_validates(d),
                ) + ")"@
            },
            _ => ".each(:"@ + predicate_token(desc_predicate(d)) + constraints_text(
                desc_validates(d),
            ) + ")"@,
        },
        _ => Seq::empty(),
    }
}

/// The `value(...)` check for a parameter's schema; an unsupported schema
/// renders as a plain integer.
pub open spec fn value_text(r: &SchemaRef, nesting: nat) -> Seq<char> {
    match r {
        SchemaRef::Item(SchemaKind::Type(d)) => if supported(r) {
            "value(:"@ + value_token(desc_value_type(d)) + constraints_text(desc_validates(d))
                + ")"@ + match d {
                TypeDesc::Array { items, .. } => match known_items(*items) {
                    Some(i) => items_text(&i, nesting),
                    None => Seq::empty(),
                },
                _ => Seq::empty(),
            }
        } else {
            "value(:"@ + value_token(ValueType::Integer) + constraints_text(Seq::empty()) + ")"@
        },
        _ => "value(:"@ + value_token(ValueType::Integer) + constraints_text(Seq::empty())
            + ")"@,
    }
}

/// The check that stands for an unsupported schema or parameter.
pub open spec fn placeholder_text() -> Seq<char> {
    "value(:"@ + value_token(ValueType::Integer) + constraints_text(Seq::empty()) + ")"@
}

/// The start of a parameter's line, up to its check.
pub open spec fn head_text(name: Seq<char>, required: bool) -> Seq<char> {
    (if required {
        "required(:"@
    } else {
        "optional(:"@
    }) + name + ")."@
}

/// The line of a query parameter, without indentation.
pub open spec fn param_text(d: &ParameterData, nesting: nat) -> Seq<char> {
    head_text(d.name@, d.required) + match &d.format {
        ParameterFormat::Schema(r) => value_text(r, nesting),
        ParameterFormat::Content => placeholder_text(),
    }
}

/// The line of any parameter, without indentation: a placeholder for one
/// that is not an inline query parameter.
pub open spec fn param_ref_text(p: ParameterRef, nesting: nat) -> Seq<char> {
    match p {
        ParameterRef::Item(Parameter::Query(d)) => param_text(&d, nesting),
        ParameterRef::Item(Parameter::Header(d)) => head_text(d.name@, d.required)
            + placeholder_text(),
        ParameterRef::Item(Parameter::Path(d)) => head_text(d.name@, d.required)
            + placeholder_text(),
        ParameterRef::Item(Parameter::Cookie(d)) => head_text(d.name@, d.required)
            + placeholder_text(),
        ParameterRef::Reference(r) => head_text(r@, false) + placeholder_text(),
    }
}

/// Each parameter on a line of its own, indented to `nesting`.
pub open spec fn params_text(qs: Seq<ParameterRef>, nesting: nat) -> Seq<char>
    decreases qs.len(),
{
    if qs.len() == 0 {
        Seq::empty()
    } else {
        params_text(qs.drop_last(), nesting) + indent_text(nesting) + param_ref_text(
            qs.last(),
            nesting,
        ) + "\n"@
    }
}

/// The code generated for `op` under the identifier `ident`.
pub open spec fn operation_text(ident: Seq<char>, op: &Operation) -> Seq<char> {
    ident + " = "@ + class_text(SchemaClass::Params) + " "@ + "do\n"@ + params_text(
        op.parameters@,
        1,
    ) + indent_text(0) + "end\n"@
}

proof fn lemma_items_text(item: &Item, e: &Each, r: &SchemaRef, nesting: nat)
    requires
        supported(r),
        shape_built(&item.ty, item.validates@, r),
        each_lowered(e, item),
    ensures
        each_text(e, nesting) == items_text(r, nesting),
    decreases r,
{
    match r {
        SchemaRef::Item(SchemaKind::Type(d)) => match d {
            TypeDesc::Array { items: Some(b), .. } => {
                if supported(&**b) {
                    match (&item.ty, e) {
                        (Type::Array(Some(inner)), Each::Block { nested, .. }) => {
                            lemma_items_text(&**inner, &**nested, &**b, nesting + 1);
                        },
                        _ => {},
                    }
                }
            },
            _ => {},
        },
        _ => {},
    }
}

proof fn lemma_value_text(m: &Macro, t: &Type, vs: Seq<Validation>, r: &SchemaRef, nesting: nat)
    requires
        shape_built(t, vs, r),
        macro_lowered(m, t, vs),
    ensures
        macro_text(m, nesting) == value_text(r, nesting),
{
    if supported(r) {
        match r {
            SchemaRef::Item(SchemaKind::Type(TypeDesc::Array { items: Some(b), .. })) => {
                if supported(&**b) {
                    match (t, m) {
                        (Type::Array(Some(item)), Macro::Value { each: Some(e), .. }) => {
                            lemma_items_text(&**item, e, &**b, nesting);
                        },
                        _ => {},
                    }
                }
            },
            _ => {},
        }
    }
}

proof fn lemma_param_text(st: &Stmt, s: &Schema, d: &ParameterData, nesting: nat)
    requires
        schema_built(s, d),
        stmt_lowered(st, s),
    ensures
        stmt_text(st, nesting) == param_text(d, nesting),
{
    match st {
        Stmt::Required { rule, .. } | Stmt::Optional { rule, .. } => {
            match &d.format {
                ParameterFormat::Schema(r) => lemma_value_text(rule, &s.ty, s.validates@, r, nesting),
                ParameterFormat::Content => {},
            }
        },
    }
}

proof fn lemma_param_ref_text(st: &Stmt, s: &Schema, p: ParameterRef, nesting: nat)
    requires
        param_built(s, p),
        stmt_lowered(st, s),
    ensures
        stmt_text(st, nesting) == param_ref_text(p, nesting),
{
    match p {
        ParameterRef::Item(Parameter::Query(d)) => lemma_param_text(st, s, &d, nesting),
        _ => {
            assert(s.validates@ =~= Seq::empty());
        },
    }
}

proof fn lemma_params_text(stmts: Seq<Stmt>, schemas: Seq<Schema>, ps: Seq<ParameterRef>)
    requires
        stmts.len() == schemas.len(),
        schemas.len() == ps.len(),
        forall|i: int| 0 <= i < ps.len() ==> param_built(#[trigger] &schemas[i], ps[i]),
        forall|i: int| 0 <= i < ps.len() ==> stmt_lowered(#[trigger] &stmts[i], &schemas[i]),
    ensures
        stmts_text(stmts, 1) == params_text(ps, 1),
    decreases ps.len(),
{
    if ps.len() > 0 {
        let k = ps.len() - 1;
        assert(param_built(&schemas[k], ps[k]));
        assert(stmt_lowered(&stmts[k], &schemas[k]));
        lemma_param_ref_text(&stmts[k], &schemas[k], ps[k], 1);
        lemma_params_text(stmts.drop_last(), schemas.drop_last(), ps.drop_last());
    }
}

/// What lowering and rendering make of a built operation is the text stated
/// over the operation itself.
pub proof fn lemma_rendered(pathname: Seq<char>, op: &Operation, r: &AstResult, d: &Def, ident: Seq<char>)
    requires
        ast_built(r, pathname, op),
        r.ast.name matches Some(n) && def_lowered(d, n@, &r.ast),
    ensures
        def_text(ident, d) == operation_text(ident, op),
{
    let qs = op.parameters@;
    assert forall|i: int| 0 <= i < qs.len() implies param_built(
        #[trigger] &r.ast.parameters@[i],
        qs[i],
    ) by {}
    assert forall|i: int| 0 <= i < qs.len() implies stmt_lowered(
        #[trigger] &d.block@[i],
        &r.ast.parameters@[i],
    ) by {}
    lemma_params_text(d.block@, r.ast.parameters@, qs);
    assert(def_text(ident, d) =~= operation_text(ident, op));
}

/// Translates one operation registered under `pathname`: its code, when it
/// has an operation id, and its diagnostics, which never stop the code from
/// being generated.
pub fn generate_operation(pathname: String, operation: &Operation) -> (r: Generated)
    ensures
        texts(r.diagnostics@) == diagnostics(pathname@, operation),
        r.code.is_some() == operation.operation_id.is_some(),
        r.code matches Some(c) ==> operation.operation_id matches Some(id) && c@ == operation_text(
            pascal_of(id@),
            operation,
        ),
{
    let ghost path = pathname@;
    let built = build(pathname, operation);
    let code = match lower(&built.ast) {
        Some(def) => {
            let c = generate(&def);
            proof {
                lemma_rendered(path, operation, &built, &def, pascal_of(def.name@));
            }
            Some(c)
        },
        None => None,
    };
    Generated { code, diagnostics: built.errors }
}

} // verus!
