//! Facts about the generated text, proved from the specifications of the
//! translation.
use vstd::prelude::*;
use crate::ast::{Item, Type, Validation};
use crate::ast_builder::desc_validates;
use crate::codegen::{bounds_text, constraints_text, is_upper, predicate_token, validation_text};
use crate::ir::{each_lowered, Each};
use crate::openapi::{ParameterData, ParameterFormat, ParameterRef, SchemaKind, SchemaRef, TypeDesc};
use crate::pipeline::{desc_predicate, param_ref_text, param_text, params_text, value_text};
use crate::text::{indent_text, int_text, nat_text};

verus! {

/// An upper and a lower bound render as `, <upper>, <lower>`, whichever
/// order the list holds them in.
pub proof fn lemma_upper_before_lower(hi: Validation, lo: Validation)
    requires
        is_upper(hi),
        !is_upper(lo),
    ensures
        constraints_text(seq![hi, lo]) == ", "@ + validation_text(hi) + ", "@ + validation_text(lo),
        constraints_text(seq![lo, hi]) == constraints_text(seq![hi, lo]),
{
    let e = Seq::<Validation>::empty();
    assert(seq![hi, lo].drop_last() =~= seq![hi]);
    assert(seq![lo, hi].drop_last() =~= seq![lo]);
    assert(seq![hi].drop_last() =~= e);
    assert(seq![lo].drop_last() =~= e);
    assert(bounds_text(e, true) == Seq::<char>::empty());
    assert(bounds_text(e, false) == Seq::<char>::empty());
    assert(bounds_text(seq![hi], true) =~= ", "@ + validation_text(hi));
    assert(bounds_text(seq![hi], false) =~= Seq::<char>::empty());
    assert(bounds_text(seq![lo], true) =~= Seq::<char>::empty());
    assert(bounds_text(seq![lo], false) =~= ", "@ + validation_text(lo));
    assert(constraints_text(seq![hi, lo]) =~= ", "@ + validation_text(hi) + ", "@ + validation_text(
        lo,
    ));
    assert(constraints_text(seq![lo, hi]) =~= ", "@ + validation_text(hi) + ", "@ + validation_text(
        lo,
    ));
}

/// A query parameter whose schema is an integer, string or boolean without
/// constraints renders as `required(:<name>).value(:<type>)`, and as
/// `optional(:<name>).value(:<type>)` when it is not required.
pub proof fn lemma_scalar_line(d: &ParameterData, t: TypeDesc, nesting: nat)
    requires
        d.format == ParameterFormat::Schema(SchemaRef::Item(SchemaKind::Type(t))),
        t == (TypeDesc::Integer { minimum: None, maximum: None }) || t == (TypeDesc::String {
            min_length: None,
            max_length: None,
        }) || t == TypeDesc::Boolean,
    ensures
        param_text(d, nesting) == (if d.required {
            "required(:"@
        } else {
            "optional(:"@
        }) + d.name@ + ")."@ + "value(:"@ + (match t {
            TypeDesc::Integer { .. } => "integer"@,
            TypeDesc::String { .. } => "string"@,
            _ => "boolean"@,
        }) + ")"@,
{
    assert(desc_validates(&t) =~= Seq::empty());
    assert(constraints_text(Seq::empty()) == Seq::<char>::empty());
    let lhs = param_text(d, nesting);
    assert(lhs =~= (if d.required {
        "required(:"@
    } else {
        "optional(:"@
    }) + d.name@ + ")."@ + "value(:"@ + (match t {
        TypeDesc::Integer { .. } => "integer"@,
        TypeDesc::String { .. } => "string"@,
        _ => "boolean"@,
    }) + ")"@);
}

/// An integer schema with `minimum = m` and `maximum = M` renders as
/// `value(:integer, max: M, min: m)`.
pub proof fn lemma_integer_bounds(m: i64, hi: i64, nesting: nat)
    ensures
        value_text(
            &SchemaRef::Item(SchemaKind::Type(TypeDesc::Integer { minimum: Some(m), maximum: Some(hi) })),
            nesting,
        ) == "value(:"@ + "integer"@ + ", "@ + "max: "@ + int_text(hi as int) + ", "@ + "min: "@
            + int_text(m as int) + ")"@,
{
    let d = TypeDesc::Integer { minimum: Some(m), maximum: Some(hi) };
    assert(desc_validates(&d) =~= seq![Validation::Max(hi), Validation::Min(m)]);
    lemma_upper_before_lower(Validation::Max(hi), Validation::Min(m));
        assert(value_text(&SchemaRef::Item(SchemaKind::Type(d)), nesting) =~= "value(:"@ + "integer"@
        + ", "@ + "max: "@ + int_text(hi as int) + ", "@ + "min: "@ + int_text(m as int) + ")"@);
}

/// A string schema with `minLength = m` and `maxLength = M` renders as
/// `value(:string, max_size: M, min_size: m)`.
pub proof fn lemma_string_bounds(m: usize, hi: usize, nesting: nat)
    ensures
        value_text(
            &SchemaRef::Item(SchemaKind::Type(TypeDesc::String { min_length: Some(m), max_length: Some(hi) })),
            nesting,
        ) == "value(:"@ + "string"@ + ", "@ + "max_size: "@ + nat_text(hi as nat) + ", "@
            + "min_size: "@ + nat_text(m as nat) + ")"@,
{
    let d = TypeDesc::String { min_length: Some(m), max_length: Some(hi) };
    assert(desc_validates(&d) =~= seq![
        Validation::MaxLength(hi),
        Validation::MinLength(m),
    ]);
    lemma_upper_before_lower(Validation::MaxLength(hi), Validation::MinLength(m));
        assert(value_text(&SchemaRef::Item(SchemaKind::Type(d)), nesting) =~= "value(:"@ + "string"@
        + ", "@ + "max_size: "@ + nat_text(hi as nat) + ", "@ + "min_size: "@ + nat_text(m as nat)
        + ")"@);
}

/// An array schema with `minItems = m`, `maxItems = M` and no item schema
/// renders as `value(:array, max_size: M, min_size: m)`, with no `.each`.
pub proof fn lemma_array_bounds(m: usize, hi: usize, nesting: nat)
    ensures
        value_text(
            &SchemaRef::Item(SchemaKind::Type(TypeDesc::Array { items: None, min_items: Some(m), max_items: Some(hi) })),
            nesting,
        ) == "value(:"@ + "array"@ + ", "@ + "max_size: "@ + nat_text(hi as nat) + ", "@
            + "min_size: "@ + nat_text(m as nat) + ")"@,
{
    let d = TypeDesc::Array { items: None, min_items: Some(m), max_items: Some(hi) };
    assert(desc_validates(&d) =~= seq![
        Validation::MaxItems(hi),
        Validation::MinItems(m),
    ]);
    lemma_upper_before_lower(Validation::MaxItems(hi), Validation::MinItems(m));
        assert(value_text(&SchemaRef::Item(SchemaKind::Type(d)), nesting) =~= "value(:"@ + "array"@
        + ", "@ + "max_size: "@ + nat_text(hi as nat) + ", "@ + "min_size: "@ + nat_text(m as nat)
        + ")"@);
}

/// An array whose items are an integer, string or boolean schema checks
/// them inline, `value(:array<bounds>).each(:<predicate><item bounds>)`,
/// with no block.
pub proof fn lemma_scalar_items_inline(
    item: TypeDesc,
    min_items: Option<usize>,
    max_items: Option<usize>,
    nesting: nat,
)
    requires
        item matches TypeDesc::Integer { .. } || item matches TypeDesc::String { .. } || item
            == TypeDesc::Boolean,
    ensures
        ({
            let arr = TypeDesc::Array {
                items: Some(Box::new(SchemaRef::Item(SchemaKind::Type(item)))),
                min_items,
                max_items,
            };
            value_text(&SchemaRef::Item(SchemaKind::Type(arr)), nesting) == "value(:"@ + "array"@
                + constraints_text(desc_validates(&arr)) + ")"@ + ".each(:"@ + predicate_token(
                desc_predicate(&item),
            ) + constraints_text(desc_validates(&item)) + ")"@
        }),
{
}

/// How many array levels with items of their own lie below an array whose
/// items are `item`.
pub open spec fn nested_levels(item: &Item) -> nat
    decreases item,
{
    match &item.ty {
        Type::Array(Some(inner)) => 1 + nested_levels(&**inner),
        _ => 0,
    }
}

/// How many `do ... end` blocks an `.each` clause opens.
pub open spec fn blocks(e: &Each) -> nat
    decreases e,
{
    match e {
        Each::Block { nested, .. } => 1 + blocks(&**nested),
        Each::Inline { .. } => 0,
    }
}

/// The items of an array are checked inline exactly when they are scalars
/// or arrays of unknown items; otherwise the clause opens one nested block
/// per further array level, down to the first items that are not arrays
/// with items.
pub proof fn lemma_each_blocks(e: &Each, item: &Item)
    requires
        each_lowered(e, item),
    ensures
        blocks(e) == nested_levels(item),
        (nested_levels(item) == 0) == (e matches Each::Inline { .. }),
    decreases item,
{
    match (&item.ty, e) {
        (Type::Array(Some(inner)), Each::Block { nested, .. }) => {
            lemma_each_blocks(&**nested, &**inner);
        },
        _ => {},
    }
}

proof fn lemma_params_concat(a: Seq<ParameterRef>, b: Seq<ParameterRef>, nesting: nat)
    ensures
        params_text(a + b, nesting) == params_text(a, nesting) + params_text(b, nesting),
    decreases b.len(),
{
    if b.len() == 0 {
        assert(a + b =~= a);
        assert(params_text(a, nesting) =~= params_text(a, nesting) + params_text(b, nesting));
    } else {
        assert((a + b).drop_last() =~= a + b.drop_last());
        assert((a + b).last() == b.last());
        lemma_params_concat(a, b.drop_last(), nesting);
        assert(params_text(a + b, nesting) =~= params_text(a, nesting) + params_text(b, nesting));
    }
}

/// Diagnostics never keep a parameter out of the code: whatever else the
/// operation holds, the line of its `j`-th parameter stands in the block
/// between the lines of the parameters before it and those after it.
pub proof fn lemma_param_line_kept(ps: Seq<ParameterRef>, j: int)
    requires
        0 <= j < ps.len(),
    ensures
        params_text(ps, 1) == params_text(ps.take(j), 1) + indent_text(1) + param_ref_text(ps[j], 1)
            + "\n"@ + params_text(ps.skip(j + 1), 1),
{
    let head = ps.take(j + 1);
    assert(ps =~= head + ps.skip(j + 1));
    lemma_params_concat(head, ps.skip(j + 1), 1);
    assert(head.drop_last() =~= ps.take(j));
    assert(head.last() == ps[j]);
}

} // verus!
