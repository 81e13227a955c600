//! Rendering of a definition as dry-validation source text.
use vstd::prelude::*;
use convert_case::{Case, Casing};
use crate::ast::Validation;
use crate::ir::{Def, Each, Macro, Predicate, SchemaClass, Stmt, ValueType};
use crate::text::{indent_text, int_text, nat_text, push_indent, push_int, push_nat};

verus! {

/// The PascalCase form of an identifier given in camelCase, kebab-case or
/// snake_case, as convert_case computes it.
pub uninterp spec fn pascal_of(s: Seq<char>) -> Seq<char>;

pub open spec fn value_token(t: ValueType) -> Seq<char> {
    match t {
        ValueType::Integer => "integer"@,
        ValueType::String => "string"@,
        ValueType::Boolean => "boolean"@,
        ValueType::Array => "array"@,
    }
}

pub open spec fn predicate_token(p: Predicate) -> Seq<char> {
    match p {
        Predicate::Int => "int?"@,
        Predicate::Str => "str?"@,
        Predicate::Bool => "bool?"@,
        Predicate::Array => "array?"@,
    }
}

/// One constraint as a keyword argument.
pub open spec fn validation_text(v: Validation) -> Seq<char> {
    match v {
        Validation::Max(n) => "max: "@ + int_text(n as int),
        Validation::Min(n) => "min: "@ + int_text(n as int),
        Validation::MaxLength(n) => "max_size: "@ + nat_text(n as nat),
        Validation::MinLength(n) => "min_size: "@ + nat_text(n as nat),
        Validation::MaxItems(n) => "max_size: "@ + nat_text(n as nat),
        Validation::MinItems(n) => "min_size: "@ + nat_text(n as nat),
    }
}

/// Whether a constraint is an upper bound (`max`, `max_size`).
pub open spec fn is_upper(v: Validation) -> bool {
    match v {
        Validation::Max(_) | Validation::MaxLength(_) | Validation::MaxItems(_) => true,
        _ => false,
    }
}

/// The constraints of `vs` that are upper bounds (or, when `upper` is
/// false, lower bounds), in the order of `vs`, each preceded by `, `.
pub open spec fn bounds_text(vs: Seq<Validation>, upper: bool) -> Seq<char>
    decreases vs.len(),
{
    if vs.len() == 0 {
        Seq::empty()
    } else if is_upper(vs.last()) == upper {
        bounds_text(vs.drop_last(), upper) + ", "@ + validation_text(vs.last())
    } else {
        bounds_text(vs.drop_last(), upper)
    }
}

/// The constraints as keyword arguments: every upper bound before every
/// lower bound, whatever their order in `vs`.
pub open spec fn constraints_text(vs: Seq<Validation>) -> Seq<char> {
    bounds_text(vs, true) + bounds_text(vs, false)
}

/// The `.each(...)` clause of an array whose statement stands at `nesting`.
pub open spec fn each_text(e: &Each, nesting: nat) -> Seq<char>
    decreases e,
{
    match e {
        Each::Inline { predicate, validations } => ".each(:"@ + predicate_token(*predicate)
            + constraints_text(validations@) + ")"@,
        Each::Block { validations, nested } => ".each(:array?"@ + constraints_text(validations@)
            + ") do\n"@ + indent_text(nesting + 1) + "schema(:array?)"@ + each_text(
            &**nested,
            nesting + 1,
        ) + "\n"@ + indent_text(nesting) + "end"@,
    }
}

pub open spec fn macro_text(m: &Macro, nesting: nat) -> Seq<char> {
    match m {
        Macro::Value { ty, validations, each } => "value(:"@ + value_token(*ty) + constraints_text(
            validations@,
        ) + ")"@ + match each {
            Some(e) => each_text(e, nesting),
            None => Seq::empty(),
        },
    }
}

pub open spec fn stmt_text(st: &Stmt, nesting: nat) -> Seq<char> {
    match st {
        Stmt::Required { name, rule } => "required(:"@ + name@ + ")."@ + macro_text(rule, nesting),
        Stmt::Optional { name, rule } => "optional(:"@ + name@ + ")."@ + macro_text(rule, nesting),
    }
}

/// Each statement on a line of its own, indented to `nesting`.
pub open spec fn stmts_text(stmts: Seq<Stmt>, nesting: nat) -> Seq<char>
    decreases stmts.len(),
{
    if stmts.len() == 0 {
        Seq::empty()
    } else {
        stmts_text(stmts.drop_last(), nesting) + indent_text(nesting) + stmt_text(
            &stmts.last(),
            nesting,
        ) + "\n"@
    }
}

/// A `do ... end` block whose statements stand at `nesting`.
pub open spec fn block_text(stmts: Seq<Stmt>, nesting: nat) -> Seq<char> {
    "do\n"@ + stmts_text(stmts, nesting) + indent_text((nesting - 1) as nat) + "end\n"@
}

pub open spec fn class_text(c: SchemaClass) -> Seq<char> {
    match c {
        SchemaClass::Params => "Dry::Schema::Params"@,
    }
}

/// A definition rendered under the identifier `ident`.
pub open spec fn def_text(ident: Seq<char>, def: &Def) -> Seq<char> {
    ident + " = "@ + class_text(def.class) + " "@ + block_text(def.block@, 1)
}

/// Renders `def`, named by the PascalCase form of its name.
pub fn generate(def: &Def) -> (r: String)
    ensures
        r@ == def_text(pascal_of(def.name@), def),
{
    let ident = gen_def_name(&def.name);
    generate_as(&ident, def)
}

/// Renders `def` under the identifier `ident`, taken as it is.
pub fn generate_as(ident: &String, def: &Def) -> (r: String)
    ensures
        r@ == def_text(ident@, def),
{
    let mut code = ident.clone();
    code.append(" = ");
    let class = gen_schema_class(&def.class);
    code.append(class.as_str());
    code.append(" ");
    let block = gen_block(&def.block, 1);
    code.append(block.as_str());
    assert(code@ =~= def_text(ident@, def));
    code
}

/// `nesting` levels of indentation.
pub fn indent(nesting: usize) -> (r: String)
    ensures
        r@ == indent_text(nesting as nat),
{
    let mut s = String::new();
    push_indent(&mut s, nesting);
    s
}

fn gen_block(block: &Vec<Stmt>, nesting: usize) -> (r: String)
    requires
        nesting > 0,
    ensures
        r@ == block_text(block@, nesting as nat),
{
    let mut code = String::from_str("do\n");
    let pad = indent(nesting);
    let mut i: usize = 0;
    while i < block.len()
        invariant
            i <= block@.len(),
            pad@ == indent_text(nesting as nat),
            code@ == "do\n"@ + stmts_text(block@.take(i as int), nesting as nat),
        decreases block@.len() - i,
    {
        let ghost before = code@;
        code.append(pad.as_str());
        let line = gen_stmt(&block[i], nesting);
        code.append(line.as_str());
        code.append("\n");
        proof {
            let t = block@.take(i as int + 1);
            assert(t.drop_last() =~= block@.take(i as int));
            assert(t.last() == block@[i as int]);
        }
        assert(code@ =~= "do\n"@ + stmts_text(block@.take(i as int + 1), nesting as nat));
        i = i + 1;
    }
    assert(block@.take(block@.len() as int) =~= block@);
    let close = indent(nesting - 1);
    code.append(close.as_str());
    code.append("end\n");
    assert(code@ =~= block_text(block@, nesting as nat));
    code
}

fn gen_schema_class(schema_class: &SchemaClass) -> (r: String)
    ensures
        r@ == class_text(*schema_class),
{
    match schema_class {
        SchemaClass::Params => String::from_str("Dry::Schema::Params"),
    }
}

fn gen_stmt(stmt: &Stmt, nesting: usize) -> (r: String)
    ensures
        r@ == stmt_text(stmt, nesting as nat),
{
    let pad = indent(nesting);
    let (mut code, name, rule) = match stmt {
        Stmt::Required { name, rule } => (String::from_str("required(:"), name, rule),
        Stmt::Optional { name, rule } => (String::from_str("optional(:"), name, rule),
    };
    code.append(name.as_str());
    code.append(").");
    let m = gen_macro(rule, Ghost(nesting as nat), &pad);
    code.append(m.as_str());
    assert(code@ =~= stmt_text(stmt, nesting as nat));
    code
}

fn gen_macro(rule: &Macro, Ghost(nesting): Ghost<nat>, pad: &String) -> (r: String)
    requires
        pad@ == indent_text(nesting),
    ensures
        r@ == macro_text(rule, nesting),
{
    match rule {
        Macro::Value { ty, validations, each } => {
            let mut code = String::from_str("value(:");
            code.append(value_type_str(*ty));
            push_constraints(&mut code, validations);
            code.append(")");
            if let Some(e) = each {
                push_each(&mut code, e, Ghost(nesting), pad);
            }
            assert(code@ =~= macro_text(rule, nesting));
            code
        },
    }
}

fn value_type_str(t: ValueType) -> (r: &'static str)
    ensures
        r@ == value_token(t),
{
    match t {
        ValueType::Integer => "integer",
        ValueType::String => "string",
        ValueType::Boolean => "boolean",
        ValueType::Array => "array",
    }
}

fn predicate_str(p: Predicate) -> (r: &'static str)
    ensures
        r@ == predicate_token(p),
{
    match p {
        Predicate::Int => "int?",
        Predicate::Str => "str?",
        Predicate::Bool => "bool?",
        Predicate::Array => "array?",
    }
}

fn push_validation(out: &mut String, v: Validation)
    ensures
        final(out)@ == old(out)@ + validation_text(v),
{
    match v {
        Validation::Max(n) => {
            out.append("max: ");
            push_int(out, n);
        },
        Validation::Min(n) => {
            out.append("min: ");
            push_int(out, n);
        },
        Validation::MaxLength(n) | Validation::MaxItems(n) => {
            out.append("max_size: ");
            push_nat(out, n as u64);
        },
        Validation::MinLength(n) | Validation::MinItems(n) => {
            out.append("min_size: ");
            push_nat(out, n as u64);
        },
    }
    assert(final(out)@ =~= old(out)@ + validation_text(v));
}

fn push_bounds(out: &mut String, vs: &Vec<Validation>, upper: bool)
    ensures
        final(out)@ == old(out)@ + bounds_text(vs@, upper),
{
    let mut i: usize = 0;
    while i < vs.len()
        invariant
            i <= vs@.len(),
            out@ == old(out)@ + bounds_text(vs@.take(i as int), upper),
        decreases vs@.len() - i,
    {
        let v = vs[i];
        let v_upper = match v {
            Validation::Max(_) | Validation::MaxLength(_) | Validation::MaxItems(_) => true,
            _ => false,
        };
        if v_upper == upper {
            out.append(", ");
            push_validation(out, v);
        }
        proof {
            let t = vs@.take(i as int + 1);
            assert(t.drop_last() =~= vs@.take(i as int));
        }
        assert(out@ =~= old(out)@ + bounds_text(vs@.take(i as int + 1), upper));
        i = i + 1;
    }
    assert(vs@.take(vs@.len() as int) =~= vs@);
}

fn push_constraints(out: &mut String, vs: &Vec<Validation>)
    ensures
        final(out)@ == old(out)@ + constraints_text(vs@),
{
    push_bounds(out, vs, true);
    push_bounds(out, vs, false);
    assert(final(out)@ =~= old(out)@ + constraints_text(vs@));
}

fn push_each(out: &mut String, e: &Each, Ghost(nesting): Ghost<nat>, pad: &String)
    requires
        pad@ == indent_text(nesting),
    ensures
        final(out)@ == old(out)@ + each_text(e, nesting),
    decreases e,
{
    match e {
        Each::Inline { predicate, validations } => {
            out.append(".each(:");
            out.append(predicate_str(*predicate));
            push_constraints(out, validations);
            out.append(")");
        },
        Each::Block { validations, nested } => {
            out.append(".each(:array?");
            push_constraints(out, validations);
            out.append(") do\n");
            let mut inner = pad.clone();
            inner.append("  ");
            out.append(inner.as_str());
            out.append("schema(:array?)");
            push_each(out, &**nested, Ghost(nesting + 1), &inner);
            out.append("\n");
            out.append(pad.as_str());
            out.append("end");
        },
    }
    assert(final(out)@ =~= old(out)@ + each_text(e, nesting));
}

/// Relies on convert_case's `Casing::to_case` with `Case::Pascal`: the
/// identifier in PascalCase, a function of its characters alone.
#[verifier::external_body]
fn gen_def_name(name: &str) -> (r: String)
    ensures
        r@ == pascal_of(name@),
{
    name.to_case(Case::Pascal)
}

} // verus!
