//! The statements that code emission renders, and lowering of a schema tree
//! into them.
use vstd::prelude::*;
use crate::ast::{copy_validations, Item, RootSchema, Schema, Type, Validation};

verus! {

/// The kind of schema a definition makes.
#[derive(Clone, Copy, Debug, PartialEq, Eq, Structural)]
pub enum SchemaClass {
    Params,
}

/// The type named by `value(...)`.
#[derive(Clone, Copy, Debug, PartialEq, Eq, Structural)]
pub enum ValueType {
    Integer,
    String,
    Boolean,
    Array,
}

/// The predicate named by `each(...)` for an array's items.
#[derive(Clone, Copy, Debug, PartialEq, Eq, Structural)]
pub enum Predicate {
    Int,
    Str,
    Bool,
    Array,
}

/// How an array's items are checked.
#[derive(Debug, PartialEq)]
pub enum Each {
    /// Items that are scalars, or arrays whose items are unknown.
    Inline { predicate: Predicate, validations: Vec<Validation> },
    /// Items that are arrays with items of their own: a nested block.
    Block { validations: Vec<Validation>, nested: Box<Each> },
}

/// The check applied to one parameter.
#[derive(Debug, PartialEq)]
pub enum Macro {
    Value { ty: ValueType, validations: Vec<Validation>, each: Option<Each> },
}

/// One parameter of a definition.
#[derive(Debug, PartialEq)]
pub enum Stmt {
    Required { name: String, rule: Macro },
    Optional { name: String, rule: Macro },
}

/// A named schema definition.
#[derive(Debug, PartialEq)]
pub struct Def {
    pub name: String,
    pub class: SchemaClass,
    pub block: Vec<Stmt>,
}

pub open spec fn value_type_of(t: &Type) -> ValueType {
    match t {
        Type::Integer => ValueType::Integer,
        Type::String => ValueType::String,
        Type::Boolean => ValueType::Boolean,
        Type::Array(_) => ValueType::Array,
    }
}

pub open spec fn predicate_of(t: &Type) -> Predicate {
    match t {
        Type::Integer => Predicate::Int,
        Type::String => Predicate::Str,
        Type::Boolean => Predicate::Bool,
        Type::Array(_) => Predicate::Array,
    }
}

/// Whether `e` is the lowering of the items `item`: inline when the items
/// are scalars or arrays of unknown items, else a block around the lowering
/// of the items' own items.
pub open spec fn each_lowered(e: &Each, item: &Item) -> bool
    decreases item,
{
    match &item.ty {
        Type::Array(Some(inner)) => match e {
            Each::Block { validations, nested } => validations@ == item.validates@
                && each_lowered(&**nested, &**inner),
            _ => false,
        },
        _ => match e {
            Each::Inline { predicate, validations } => *predicate == predicate_of(&item.ty)
                && validations@ == item.validates@,
            _ => false,
        },
    }
}

/// Whether `m` is the lowering of type `t` with constraints `vs`.
pub open spec fn macro_lowered(m: &Macro, t: &Type, vs: Seq<Validation>) -> bool {
    match m {
        Macro::Value { ty, validations, each } => {
            &&& *ty == value_type_of(t)
            &&& validations@ == vs
            &&& match t {
                Type::Array(Some(item)) => each matches Some(e) && each_lowered(&e, &**item),
                _ => each.is_none(),
            }
        },
    }
}

/// Whether `st` is the lowering of the parameter `s`.
pub open spec fn stmt_lowered(st: &Stmt, s: &Schema) -> bool {
    match st {
        Stmt::Required { name, rule } => s.required && name@ == s.name@ && macro_lowered(
            rule,
            &s.ty,
            s.validates@,
        ),
        Stmt::Optional { name, rule } => !s.required && name@ == s.name@ && macro_lowered(
            rule,
            &s.ty,
            s.validates@,
        ),
    }
}

/// Whether `d` is the lowering of `root`, whose name is `name`.
pub open spec fn def_lowered(d: &Def, name: Seq<char>, root: &RootSchema) -> bool {
    &&& d.name@ == name
    &&& d.class == SchemaClass::Params
    &&& d.block@.len() == root.parameters@.len()
    &&& forall|i: int|
        0 <= i < d.block@.len() ==> stmt_lowered(#[trigger] &d.block@[i], &root.parameters@[i])
}

fn lower_each(item: &Item) -> (r: Each)
    ensures
        each_lowered(&r, item),
    decreases item,
{
    match &item.ty {
        Type::Array(Some(inner)) => Each::Block {
            validations: copy_validations(&item.validates),
            nested: Box::new(lower_each(&**inner)),
        },
        Type::Integer => Each::Inline {
            predicate: Predicate::Int,
            validations: copy_validations(&item.validates),
        },
        Type::String => Each::Inline {
            predicate: Predicate::Str,
            validations: copy_validations(&item.validates),
        },
        Type::Boolean => Each::Inline {
            predicate: Predicate::Bool,
            validations: copy_validations(&item.validates),
        },
        Type::Array(None) => Each::Inline {
            predicate: Predicate::Array,
            validations: copy_validations(&item.validates),
        },
    }
}

fn lower_macro(t: &Type, vs: &Vec<Validation>) -> (r: Macro)
    ensures
        macro_lowered(&r, t, vs@),
{
    let validations = copy_validations(vs);
    match t {
        Type::Integer => Macro::Value { ty: ValueType::Integer, validations, each: None },
        Type::String => Macro::Value { ty: ValueType::String, validations, each: None },
        Type::Boolean => Macro::Value { ty: ValueType::Boolean, validations, each: None },
        Type::Array(None) => Macro::Value { ty: ValueType::Array, validations, each: None },
        Type::Array(Some(item)) => Macro::Value {
            ty: ValueType::Array,
            validations,
            each: Some(lower_each(&**item)),
        },
    }
}

/// Lowers one parameter into its statement.
pub fn lower_schema(s: &Schema) -> (r: Stmt)
    ensures
        stmt_lowered(&r, s),
{
    let rule = lower_macro(&s.ty, &s.validates);
    if s.required {
        Stmt::Required { name: s.name.clone(), rule }
    } else {
        Stmt::Optional { name: s.name.clone(), rule }
    }
}

/// Lowers a schema tree into a `Params` definition named by its operation
/// id, one statement per parameter in order; `None` when the tree has no
/// name.
pub fn lower(root: &RootSchema) -> (r: Option<Def>)
    ensures
        r.is_some() == root.name.is_some(),
        r matches Some(d) ==> root.name matches Some(n) && def_lowered(&d, n@, root),
{
    let name = match &root.name {
        Some(n) => n.clone(),
        None => {
            return None;
        },
    };
    let mut block: Vec<Stmt> = Vec::new();
    let mut i: usize = 0;
    while i < root.parameters.len()
        invariant
            i <= root.parameters@.len(),
            block@.len() == i,
            forall|j: int|
                0 <= j < i ==> stmt_lowered(#[trigger] &block@[j], &root.parameters@[j]),
        decreases root.parameters@.len() - i,
    {
        block.push(lower_schema(&root.parameters[i]));
        i = i + 1;
    }
    Some(Def { name, class: SchemaClass::Params, block })
}

} // verus!
