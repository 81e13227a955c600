//! Building the schema tree of an operation's query parameters, with a
//! diagnostic for each construct that generation does not support.
use vstd::prelude::*;
use crate::ast::{RootSchema, Schema, Item, Type, Validation};
use crate::openapi::{
    Operation, Parameter, ParameterData, ParameterFormat, ParameterRef, SchemaKind, SchemaRef,
    TypeDesc,
};

verus! {

/// The schema tree of an operation, and the diagnostics met while building it.
pub struct AstResult {
    pub ast: RootSchema,
    pub errors: Vec<String>,
}

/// The constraint `mk(n)` when `n` is present, else nothing.
pub open spec fn bound<T>(o: Option<T>, mk: spec_fn(T) -> Validation) -> Seq<Validation> {
    match o {
        Some(n) => seq![mk(n)],
        None => Seq::empty(),
    }
}

/// The constraints read from a typed schema: upper bound first, then lower
/// bound, each only where the schema gives it.
pub open spec fn desc_validates(t: &TypeDesc) -> Seq<Validation> {
    match t {
        TypeDesc::Integer { minimum, maximum } => bound(*maximum, |n: i64| Validation::Max(n))
            + bound(*minimum, |n: i64| Validation::Min(n)),
        TypeDesc::String { min_length, max_length } => bound(
            *max_length,
            |n: usize| Validation::MaxLength(n),
        ) + bound(*min_length, |n: usize| Validation::MinLength(n)),
        TypeDesc::Array { min_items, max_items, .. } => bound(
            *max_items,
            |n: usize| Validation::MaxItems(n),
        ) + bound(*min_items, |n: usize| Validation::MinItems(n)),
        _ => Seq::empty(),
    }
}

/// Whether generation supports a schema: an inline integer, string, boolean
/// or array.
pub open spec fn supported(s: &SchemaRef) -> bool {
    match s {
        SchemaRef::Item(SchemaKind::Type(t)) => match t {
            TypeDesc::Number | TypeDesc::Object => false,
            _ => true,
        },
        _ => false,
    }
}

/// Whether `t` with constraints `vs` is what the builder makes of `s`.
/// An unsupported schema becomes an integer without constraints; array
/// items whose schema is unsupported become unknown items.
pub open spec fn shape_built(t: &Type, vs: Seq<Validation>, s: &SchemaRef) -> bool
    decreases s,
{
    if !supported(s) {
        *t === Type::Integer && vs.len() == 0
    } else {
        match s {
            SchemaRef::Item(SchemaKind::Type(d)) => vs == desc_validates(d) && match d {
                TypeDesc::Integer { .. } => *t === Type::Integer,
                TypeDesc::String { .. } => *t === Type::String,
                TypeDesc::Boolean => *t === Type::Boolean,
                TypeDesc::Array { items, .. } => match t {
                    Type::Array(it) => match items {
                        None => it.is_none(),
                        Some(b) => if supported(&**b) {
                            match it {
                                Some(i) => shape_built(&i.ty, i.validates@, &**b),
                                None => false,
                            }
                        } else {
                            it.is_none()
                        },
                    },
                    _ => false,
                },
                _ => false,
            },
            _ => false,
        }
    }
}

/// The message that names an unsupported construct.
pub open spec fn unsupported_text(target: Seq<char>) -> Seq<char> {
    "`"@ + target + "` is not supported"@
}

/// The message that names an unsupported construct and the parameter it is in.
pub open spec fn unsupported_in_text(target: Seq<char>, name: Seq<char>) -> Seq<char> {
    unsupported_text(target) + " in "@ + name
}

/// The messages for the unsupported constructs of a schema, items included.
pub open spec fn schema_messages(s: &SchemaRef, name: Seq<char>) -> Seq<Seq<char>>
    decreases s,
{
    match s {
        SchemaRef::Reference(_) => seq![unsupported_in_text("Reference"@, name)],
        SchemaRef::Item(k) => match k {
            SchemaKind::Type(TypeDesc::Number) => seq![unsupported_in_text("Number"@, name)],
            SchemaKind::Type(TypeDesc::Object) => seq![unsupported_in_text("Object"@, name)],
            SchemaKind::Type(TypeDesc::Array { items: Some(b), .. }) => schema_messages(
                &**b,
                name,
            ),
            SchemaKind::Type(_) => Seq::empty(),
            SchemaKind::OneOf => seq![unsupported_in_text("OneOf"@, name)],
            SchemaKind::AllOf => seq![unsupported_in_text("AllOf"@, name)],
            SchemaKind::AnyOf => seq![unsupported_in_text("AnyOf"@, name)],
            SchemaKind::Not => seq![unsupported_in_text("Not"@, name)],
            SchemaKind::Any => seq![unsupported_in_text("Any"@, name)],
        },
    }
}

/// Whether `s` is the placeholder that stands for an unsupported
/// parameter: an integer without constraints, under the given name.
pub open spec fn placeholder_built(s: &Schema, name: Seq<char>, required: bool) -> bool {
    &&& s.name@ == name
    &&& s.required == required
    &&& s.ty === Type::Integer
    &&& s.validates@.len() == 0
}

/// Whether `s` is what the builder makes of the query parameter `d`.
pub open spec fn schema_built(s: &Schema, d: &ParameterData) -> bool {
    &&& s.name@ == d.name@
    &&& s.required == d.required
    &&& match &d.format {
        ParameterFormat::Schema(r) => shape_built(&s.ty, s.validates@, r),
        ParameterFormat::Content => s.ty === Type::Integer && s.validates@.len() == 0,
    }
}

/// Whether `s` is what the builder makes of the parameter `p`: the schema
/// of an inline query parameter, else a placeholder named by the
/// parameter's name, or by the reference of an indirected one (which is
/// then optional).
pub open spec fn param_built(s: &Schema, p: ParameterRef) -> bool {
    match p {
        ParameterRef::Item(Parameter::Query(d)) => schema_built(s, &d),
        ParameterRef::Item(Parameter::Header(d)) => placeholder_built(s, d.name@, d.required),
        ParameterRef::Item(Parameter::Path(d)) => placeholder_built(s, d.name@, d.required),
        ParameterRef::Item(Parameter::Cookie(d)) => placeholder_built(s, d.name@, d.required),
        ParameterRef::Reference(r) => placeholder_built(s, r@, false),
    }
}

/// The messages for the unsupported constructs of one parameter.
pub open spec fn param_messages(p: ParameterRef) -> Seq<Seq<char>> {
    match p {
        ParameterRef::Reference(r) => seq![unsupported_in_text("Reference"@, r@)],
        ParameterRef::Item(Parameter::Query(d)) => match d.format {
            ParameterFormat::Schema(r) => schema_messages(&r, d.name@),
            ParameterFormat::Content => seq![unsupported_text("Content"@)],
        },
        ParameterRef::Item(Parameter::Header(d)) => seq![unsupported_in_text("Header"@, d.name@)],
        ParameterRef::Item(Parameter::Path(d)) => seq![unsupported_in_text("Path"@, d.name@)],
        ParameterRef::Item(Parameter::Cookie(d)) => seq![unsupported_in_text("Cookie"@, d.name@)],
    }
}

/// The messages for all parameters, in order.
pub open spec fn params_messages(ps: Seq<ParameterRef>) -> Seq<Seq<char>>
    decreases ps.len(),
{
    if ps.len() == 0 {
        Seq::empty()
    } else {
        params_messages(ps.drop_last()) + param_messages(ps.last())
    }
}

/// The messages for an operation, before context is added.
pub open spec fn operation_messages(op: &Operation) -> Seq<Seq<char>> {
    (if op.operation_id.is_none() {
        seq!["operation_id is not found"@]
    } else {
        Seq::empty()
    }) + params_messages(op.parameters@)
}

/// The context added to each diagnostic: the path, then the operation id
/// where there is one.
pub open spec fn context_text(pathname: Seq<char>, operation_id: Option<String>) -> Seq<char> {
    match operation_id {
        Some(id) => " in "@ + pathname + " "@ + id@,
        None => " in "@ + pathname,
    }
}

/// Each message followed by the context.
pub open spec fn with_context(msgs: Seq<Seq<char>>, ctx: Seq<char>) -> Seq<Seq<char>> {
    msgs.map_values(|m: Seq<char>| m + ctx)
}

/// The text of each string of a list.
pub open spec fn texts(v: Seq<String>) -> Seq<Seq<char>> {
    v.map_values(|s: String| s@)
}

/// The diagnostics for an operation registered under `pathname`.
pub open spec fn diagnostics(pathname: Seq<char>, op: &Operation) -> Seq<Seq<char>> {
    with_context(operation_messages(op), context_text(pathname, op.operation_id))
}

/// Whether `r` is what building the operation `op` under `pathname` gives.
pub open spec fn ast_built(r: &AstResult, pathname: Seq<char>, op: &Operation) -> bool {
    &&& r.ast.name.is_some() == op.operation_id.is_some()
    &&& (r.ast.name matches Some(n) ==> op.operation_id matches Some(id) && n@ == id@)
    &&& r.ast.parameters@.len() == op.parameters@.len()
    &&& forall|i: int|
        0 <= i < op.parameters@.len() ==> param_built(
            #[trigger] &r.ast.parameters@[i],
            op.parameters@[i],
        )
    &&& texts(r.errors@) == diagnostics(pathname, op)
}

/// Builds the schema tree of `operation`, registered under `pathname`.
/// Each inline query parameter gives one schema, in order; every other
/// unsupported construct gives a diagnostic, and building goes on.
pub fn build(pathname: String, operation: &Operation) -> (r: AstResult)
    ensures
        ast_built(&r, pathname@, operation),
{
    let builder = AstBuilder::new(pathname, operation);
    builder.build()
}

struct AstBuilder<'a> {
    pathname: String,
    operation: &'a Operation,
    errors: Vec<String>,
}

proof fn lemma_with_context_append(a: Seq<Seq<char>>, b: Seq<Seq<char>>, ctx: Seq<char>)
    ensures
        with_context(a + b, ctx) == with_context(a, ctx) + with_context(b, ctx),
{
    assert(with_context(a + b, ctx) =~= with_context(a, ctx) + with_context(b, ctx));
}

impl<'a> AstBuilder<'a> {
    spec fn ctx(&self) -> Seq<char> {
        context_text(self.pathname@, self.operation.operation_id)
    }

    fn new(pathname: String, operation: &'a Operation) -> (r: Self)
        ensures
            r.pathname == pathname,
            r.operation == operation,
            r.errors@.len() == 0,
    {
        Self { pathname, operation, errors: Vec::new() }
    }

    fn build(self) -> (r: AstResult)
        requires
            self.errors@.len() == 0,
        ensures
            ast_built(&r, self.pathname@, self.operation),
    {
        let mut this = self;
        let ghost op = this.operation;
        let ghost ctx = this.ctx();
        let ope_id = match &this.operation.operation_id {
            Some(id) => Some(id.clone()),
            None => {
                this.add_error(String::from_str("operation_id is not found"));
                None
            },
        };
        let ghost first = if op.operation_id.is_none() {
            seq!["operation_id is not found"@]
        } else {
            Seq::<Seq<char>>::empty()
        };
        assert(texts(this.errors@) =~= with_context(first, ctx));

        let mut params: Vec<Schema> = Vec::new();
        let n = this.operation.parameters.len();
        let mut i: usize = 0;
        while i < n
            invariant
                n == op.parameters@.len(),
                i <= n,
                this.operation == op,
                ctx == this.ctx(),
                params@.len() == i,
                forall|j: int|
                    0 <= j < i ==> param_built(#[trigger] &params@[j], op.parameters@[j]),
                texts(this.errors@) == with_context(
                    first + params_messages(op.parameters@.take(i as int)),
                    ctx,
                ),
            decreases n - i,
        {
            let param = &this.operation.parameters[i];
            let built = this.build_param(param);
            params.push(built);
            let ghost ps = op.parameters@.take(i as int + 1);
            assert(ps.drop_last() =~= op.parameters@.take(i as int));
            assert(ps.last() == op.parameters@[i as int]);
            proof {
                lemma_with_context_append(
                    first + params_messages(op.parameters@.take(i as int)),
                    param_messages(op.parameters@[i as int]),
                    ctx,
                );
                assert(first + params_messages(ps) =~= first + params_messages(
                    op.parameters@.take(i as int),
                ) + param_messages(op.parameters@[i as int]));
            }
            i = i + 1;
        }
        assert(op.parameters@.take(n as int) =~= op.parameters@);
        let r = AstResult { ast: RootSchema { name: ope_id, parameters: params }, errors: this.errors };
        assert(operation_messages(op) =~= first + params_messages(op.parameters@));
        r
    }

    fn build_param(&mut self, param: &ParameterRef) -> (r: Schema)
        ensures
            final(self).pathname == old(self).pathname,
            final(self).operation == old(self).operation,
            texts(final(self).errors@) == texts(old(self).errors@) + with_context(
                param_messages(*param),
                old(self).ctx(),
            ),
            param_built(&r, *param),
    {
        match param {
            ParameterRef::Item(Parameter::Query(data)) => {
                let (ty, validates) = match &data.format {
                    ParameterFormat::Schema(schema) => self.build_schema(schema, &data.name),
                    ParameterFormat::Content => {
                        self.add_unsupported_error("Content");
                        (Type::Integer, Vec::new())
                    },
                };
                Schema { name: data.name.clone(), required: data.required, ty, validates }
            },
            ParameterRef::Item(Parameter::Header(data)) => {
                self.add_unsupported_error_by_param("Header", &data.name);
                Self::placeholder(&data.name, data.required)
            },
            ParameterRef::Item(Parameter::Path(data)) => {
                self.add_unsupported_error_by_param("Path", &data.name);
                Self::placeholder(&data.name, data.required)
            },
            ParameterRef::Item(Parameter::Cookie(data)) => {
                self.add_unsupported_error_by_param("Cookie", &data.name);
                Self::placeholder(&data.name, data.required)
            },
            ParameterRef::Reference(reference) => {
                self.add_unsupported_error_by_param("Reference", reference);
                Self::placeholder(reference, false)
            },
        }
    }

    fn placeholder(name: &String, required: bool) -> (r: Schema)
        ensures
            placeholder_built(&r, name@, required),
    {
        Schema { name: name.clone(), required, ty: Type::Integer, validates: Vec::new() }
    }

    /// Appending no messages leaves the diagnostics as they are.
    proof fn lemma_no_messages(errors: Seq<String>, ctx: Seq<char>)
        ensures
            texts(errors) == texts(errors) + with_context(Seq::empty(), ctx),
    {
        assert(with_context(Seq::empty(), ctx) =~= Seq::empty());
        assert(texts(errors) =~= texts(errors) + Seq::empty());
    }

    fn is_supported(schema: &SchemaRef) -> (r: bool)
        ensures
            r == supported(schema),
    {
        match schema {
            SchemaRef::Item(SchemaKind::Type(TypeDesc::Number)) => false,
            SchemaRef::Item(SchemaKind::Type(TypeDesc::Object)) => false,
            SchemaRef::Item(SchemaKind::Type(_)) => true,
            _ => false,
        }
    }

    fn build_schema(&mut self, schema: &SchemaRef, name: &String) -> (r: (Type, Vec<Validation>))
        ensures
            final(self).pathname == old(self).pathname,
            final(self).operation == old(self).operation,
            texts(final(self).errors@) == texts(old(self).errors@) + with_context(
                schema_messages(schema, name@),
                old(self).ctx(),
            ),
            shape_built(&r.0, r.1@, schema),
        decreases schema,
    {
        match schema {
            SchemaRef::Reference(_) => {
                self.add_unsupported_error_by_param("Reference", name);
                (Type::Integer, Vec::new())
            },
            SchemaRef::Item(SchemaKind::Type(desc)) => match desc {
                TypeDesc::Integer { minimum, maximum } => {
                    let mut v: Vec<Validation> = Vec::new();
                    if let Some(n) = maximum {
                        v.push(Validation::Max(*n));
                    }
                    if let Some(n) = minimum {
                        v.push(Validation::Min(*n));
                    }
                    assert(v@ =~= desc_validates(desc));
                    proof {
                        Self::lemma_no_messages(self.errors@, self.ctx());
                    }
                    (Type::Integer, v)
                },
                TypeDesc::String { min_length, max_length } => {
                    let mut v: Vec<Validation> = Vec::new();
                    if let Some(n) = max_length {
                        v.push(Validation::MaxLength(*n));
                    }
                    if let Some(n) = min_length {
                        v.push(Validation::MinLength(*n));
                    }
                    assert(v@ =~= desc_validates(desc));
                    proof {
                        Self::lemma_no_messages(self.errors@, self.ctx());
                    }
                    (Type::String, v)
                },
                TypeDesc::Boolean => {
                    proof {
                        Self::lemma_no_messages(self.errors@, self.ctx());
                    }
                    assert(Seq::<Validation>::empty() =~= desc_validates(desc));
                    (Type::Boolean, Vec::new())
                },
                TypeDesc::Array { items, min_items, max_items } => {
                    let mut v: Vec<Validation> = Vec::new();
                    if let Some(n) = max_items {
                        v.push(Validation::MaxItems(*n));
                    }
                    if let Some(n) = min_items {
                        v.push(Validation::MinItems(*n));
                    }
                    assert(v@ =~= desc_validates(desc));
                    let item = match items {
                        None => {
                            proof {
                                Self::lemma_no_messages(self.errors@, self.ctx());
                            }
                            None
                        },
                        Some(b) => {
                            let (ity, ivs) = self.build_schema(&**b, name);
                            if Self::is_supported(&**b) {
                                Some(Box::new(Item { ty: ity, validates: ivs }))
                            } else {
                                None
                            }
                        },
                    };
                    (Type::Array(item), v)
                },
                TypeDesc::Number => {
                    self.add_unsupported_error_by_param("Number", name);
                    (Type::Integer, Vec::new())
                },
                TypeDesc::Object => {
                    self.add_unsupported_error_by_param("Object", name);
                    (Type::Integer, Vec::new())
                },
            },
            SchemaRef::Item(SchemaKind::AllOf) => {
                self.add_unsupported_error_by_param("AllOf", name);
                (Type::Integer, Vec::new())
            },
            SchemaRef::Item(SchemaKind::OneOf) => {
                self.add_unsupported_error_by_param("OneOf", name);
                (Type::Integer, Vec::new())
            },
            SchemaRef::Item(SchemaKind::AnyOf) => {
                self.add_unsupported_error_by_param("AnyOf", name);
                (Type::Integer, Vec::new())
            },
            SchemaRef::Item(SchemaKind::Any) => {
                self.add_unsupported_error_by_param("Any", name);
                (Type::Integer, Vec::new())
            },
            SchemaRef::Item(SchemaKind::Not) => {
                self.add_unsupported_error_by_param("Not", name);
                (Type::Integer, Vec::new())
            },
        }
    }

    fn add_unsupported_error(&mut self, target: &str)
        ensures
            final(self).pathname == old(self).pathname,
            final(self).operation == old(self).operation,
            texts(final(self).errors@) == texts(old(self).errors@) + with_context(
                seq![unsupported_text(target@)],
                old(self).ctx(),
            ),
    {
        let mut message = String::from_str("`");
        message.append(target);
        message.append("` is not supported");
        assert(message@ =~= unsupported_text(target@));
        self.add_error(message);
    }

    fn add_unsupported_error_by_param(&mut self, target: &str, name: &String)
        ensures
            final(self).pathname == old(self).pathname,
            final(self).operation == old(self).operation,
            texts(final(self).errors@) == texts(old(self).errors@) + with_context(
                seq![unsupported_in_text(target@, name@)],
                old(self).ctx(),
            ),
    {
        let mut message = String::from_str("`");
        message.append(target);
        message.append("` is not supported");
        message.append(" in ");
        message.append(name.as_str());
        assert(message@ =~= unsupported_in_text(target@, name@));
        self.add_error(message);
    }

    fn add_error(&mut self, message: String)
        ensures
            final(self).pathname == old(self).pathname,
            final(self).operation == old(self).operation,
            texts(final(self).errors@) == texts(old(self).errors@) + with_context(
                seq![message@],
                old(self).ctx(),
            ),
    {
        let mut line = message;
        line.append(" in ");
        line.append(self.pathname.as_str());
        if let Some(operation_id) = &self.operation.operation_id {
            line.append(" ");
            line.append(operation_id.as_str());
            assert(line@ =~= message@ + old(self).ctx());
        } else {
            assert(line@ =~= message@ + old(self).ctx());
        }
        self.errors.push(line);
        assert(texts(self.errors@) =~= texts(old(self).errors@) + with_context(
            seq![message@],
            old(self).ctx(),
        ));
    }
}

} // verus!
