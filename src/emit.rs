//! The declaration emitter: composes a declaration from a name, a type and an
//! expression, checks that it parses, and says what is to be written where.
use vstd::prelude::*;
use crate::artifact::{
    allow_export_error, artifact_path, export_error_text, init_path_for, init_symbol, path_for,
    Unit, Visibility,
};
use crate::dims::{
    array_type, assert_shape, array_type_text, nested_expr, nested_text, shape_check,
    vector_type, vector_type_text, SequenceKind, ShapeError,
};
use crate::expr::{expr_text, to_expr, Value};
use crate::source::{check_source, is_type, parse_error_text, source_parses, type_parses};

verus! {

/// One artifact to be written: the file's path and the composed declaration. Where
/// the declaration parses, the writer may lay it out anew before writing it; where it
/// does not, `parse_error` holds the parser's message, the text is written as it is,
/// and generation must then fail.
pub struct Emission {
    pub symbol: String,
    pub path: String,
    pub contents: String,
    pub parse_error: Option<String>,
}

/// `e` is what emitting `text` for `symbol` at `path` gives: the text, with the
/// parser's message when it does not parse.
pub open spec fn emitted(e: Emission, symbol: Seq<char>, path: Seq<char>, text: Seq<char>) -> bool {
    &&& e.symbol@ == symbol
    &&& e.path@ == path
    &&& e.contents@ == text
    &&& if source_parses(text) {
        e.parse_error is None
    } else {
        e.parse_error matches Some(m) && m@ == parse_error_text(text)
    }
}

/// The diagnostic for an emission whose text did not parse.
pub open spec fn failure_text(symbol: Seq<char>, message: Seq<char>, path: Seq<char>) -> Seq<char> {
    "Failed to pretty-print "@ + symbol + " due to parse error: '"@ + message
        + "'. Unformatted output has been written to "@ + path
}

impl Emission {
    /// The diagnostic to fail with, if the declaration did not parse.
    pub fn failure_message(&self) -> (r: Option<String>)
        ensures
            self.parse_error is None ==> r is None,
            self.parse_error matches Some(m) ==> (r matches Some(t) && t@ == failure_text(
                self.symbol@,
                m@,
                self.path@,
            )),
    {
        match &self.parse_error {
            None => None,
            Some(m) => {
                let mut t = String::from_str("Failed to pretty-print ");
                t.append(self.symbol.as_str());
                t.append(" due to parse error: '");
                t.append(m.as_str());
                t.append("'. Unformatted output has been written to ");
                t.append(self.path.as_str());
                Some(t)
            },
        }
    }
}

/// Checks `text` with the parser and gives the artifact to write at `path`.
pub fn emit(symbol: &str, path: String, text: String) -> (r: Emission)
    ensures
        emitted(r, symbol@, path@, text@),
{
    match check_source(text.as_str()) {
        Ok(()) => Emission {
            symbol: String::from_str(symbol),
            path,
            contents: text,
            parse_error: None,
        },
        Err(message) => Emission {
            symbol: String::from_str(symbol),
            path,
            contents: text,
            parse_error: Some(message),
        },
    }
}

/// Running the same emission twice gives the same artifact, byte for byte, at the
/// same path.
pub proof fn lemma_emission_repeatable(
    first: Emission,
    second: Emission,
    symbol: Seq<char>,
    path: Seq<char>,
    text: Seq<char>,
)
    requires
        emitted(first, symbol, path, text),
        emitted(second, symbol, path, text),
    ensures
        first.path@ == second.path@,
        first.contents@ == second.contents@,
        first.parse_error is None <==> second.parse_error is None,
{
}

/// A variable binding's storage.
#[derive(Debug, Clone, Copy, PartialEq, Eq, Structural)]
pub enum Binding {
    Static,
    Const,
}

/// What each item of a group of declarations is.
#[derive(Debug, Clone, Copy, PartialEq, Eq, Structural)]
pub enum GroupKind {
    Static,
    Const,
    Function,
}

/// How a nested array is declared.
#[derive(Debug, Clone, Copy, PartialEq, Eq, Structural)]
pub enum ArrayDecl {
    Static,
    Const,
    /// A function that returns the array.
    Function,
}

pub open spec fn pub_text(public: bool) -> Seq<char> {
    if public {
        "pub "@
    } else {
        Seq::empty()
    }
}

pub open spec fn binding_keyword(b: Binding) -> Seq<char> {
    match b {
        Binding::Static => "static"@,
        Binding::Const => "const"@,
    }
}

/// `static NAME: TYPE = EXPR;`
pub open spec fn binding_text(
    b: Binding,
    public: bool,
    name: Seq<char>,
    ty: Seq<char>,
    expr: Seq<char>,
) -> Seq<char> {
    pub_text(public) + binding_keyword(b) + " "@ + name + ": "@ + ty + " = "@ + expr + ";"@
}

/// `fn NAME() -> TYPE { EXPR }`
pub open spec fn function_text(public: bool, name: Seq<char>, ty: Seq<char>, body: Seq<char>) -> Seq<
    char,
> {
    pub_text(public) + "fn "@ + name + "() -> "@ + ty + " { "@ + body + " }"@
}

/// The parts laid end to end.
pub open spec fn concat_all(parts: Seq<Seq<char>>) -> Seq<char>
    decreases parts.len(),
{
    if parts.len() == 0 {
        Seq::empty()
    } else {
        concat_all(parts.drop_last()) + parts.last()
    }
}

fn push_pub(public: bool, out: &mut String)
    ensures
        final(out)@ == old(out)@ + pub_text(public),
{
    if public {
        out.append("pub ");
    } else {
        assert(old(out)@ + pub_text(public) =~= old(out)@);
    }
}

fn binding_decl(b: Binding, public: bool, name: &str, ty: &str, expr: &str) -> (r: String)
    ensures
        r@ == binding_text(b, public, name@, ty@, expr@),
{
    let mut r = String::new();
    push_pub(public, &mut r);
    match b {
        Binding::Static => r.append("static"),
        Binding::Const => r.append("const"),
    }
    r.append(" ");
    r.append(name);
    r.append(": ");
    r.append(ty);
    r.append(" = ");
    r.append(expr);
    r.append(";");
    assert(r@ =~= binding_text(b, public, name@, ty@, expr@));
    r
}

fn function_decl(public: bool, name: &str, ty: &str, body: &str) -> (r: String)
    ensures
        r@ == function_text(public, name@, ty@, body@),
{
    let mut r = String::new();
    push_pub(public, &mut r);
    r.append("fn ");
    r.append(name);
    r.append("() -> ");
    r.append(ty);
    r.append(" { ");
    r.append(body);
    r.append(" }");
    assert(r@ =~= function_text(public, name@, ty@, body@));
    r
}

/// Writes `value` as a static or constant `name` of type `ty`.
pub fn write_binding(unit: &Unit, b: Binding, name: &str, ty: &str, value: &Value) -> (r: Emission)
    ensures
        emitted(
            r,
            name@,
            artifact_path(unit.out_dir@, unit.package@, name@, Visibility::Private),
            binding_text(b, false, name@, ty@, expr_text(*value)),
        ),
{
    let expr = to_expr(value);
    let text = binding_decl(b, false, name, ty, expr.as_str());
    emit(name, path_for(unit, name, Visibility::Private), text)
}

/// Writes a function `name` that returns `value`, of type `ty`.
pub fn write_fn(unit: &Unit, name: &str, ty: &str, value: &Value) -> (r: Emission)
    ensures
        emitted(
            r,
            name@,
            artifact_path(unit.out_dir@, unit.package@, name@, Visibility::Private),
            function_text(false, name@, ty@, expr_text(*value)),
        ),
{
    let expr = to_expr(value);
    let text = function_decl(false, name, ty, expr.as_str());
    emit(name, path_for(unit, name, Visibility::Private), text)
}

/// The declaration of a nested array of type `ty` holding `expr`.
pub open spec fn array_decl_text(
    decl: ArrayDecl,
    name: Seq<char>,
    ty: Seq<char>,
    expr: Seq<char>,
) -> Seq<char> {
    match decl {
        ArrayDecl::Static => binding_text(Binding::Static, false, name, ty, expr),
        ArrayDecl::Const => binding_text(Binding::Const, false, name, ty, expr),
        ArrayDecl::Function => function_text(false, name, ty, expr),
    }
}

/// Writes `sample` as a nested fixed-size array of dimension `dim` over `elem`, its
/// type's lengths taken from the sample. Fails, writing nothing, when the sample
/// does not pass the shape check.
pub fn write_array(
    unit: &Unit,
    decl: ArrayDecl,
    name: &str,
    elem: &str,
    dim: usize,
    sample: &Value,
) -> (r: Result<Emission, ShapeError>)
    ensures
        r is Err <==> shape_check(dim as int, *sample) is Err,
        r matches Err(e) ==> shape_check(dim as int, *sample) == Err::<(), ShapeError>(e),
        r matches Ok(em) ==> emitted(
            em,
            name@,
            artifact_path(unit.out_dir@, unit.package@, name@, Visibility::Private),
            array_decl_text(
                decl,
                name@,
                array_type_text(elem@, (dim - 1) as nat, *sample),
                nested_text(SequenceKind::Array, (dim - 1) as nat, *sample),
            ),
        ),
{
    match assert_shape(dim, sample) {
        Err(e) => Err(e),
        Ok(()) => {
            let expr = nested_expr(SequenceKind::Array, dim, sample);
            let ty = array_type(elem, dim, sample);
            let text = match decl {
                ArrayDecl::Static => binding_decl(Binding::Static, false, name, ty.as_str(), expr.as_str()),
                ArrayDecl::Const => binding_decl(Binding::Const, false, name, ty.as_str(), expr.as_str()),
                ArrayDecl::Function => function_decl(false, name, ty.as_str(), expr.as_str()),
            };
            Ok(emit(name, path_for(unit, name, Visibility::Private), text))
        },
    }
}

/// Writes a function `name` that returns `sample` as nested vectors of dimension `dim`
/// over `elem`. Fails, writing nothing, when the sample does not pass the shape check.
pub fn write_vector_fn(unit: &Unit, name: &str, elem: &str, dim: usize, sample: &Value) -> (r:
    Result<Emission, ShapeError>)
    ensures
        r is Err <==> shape_check(dim as int, *sample) is Err,
        r matches Err(e) ==> shape_check(dim as int, *sample) == Err::<(), ShapeError>(e),
        r matches Ok(em) ==> emitted(
            em,
            name@,
            artifact_path(unit.out_dir@, unit.package@, name@, Visibility::Private),
            function_text(
                false,
                name@,
                vector_type_text(elem@, (dim - 1) as nat),
                nested_text(SequenceKind::Vector, (dim - 1) as nat, *sample),
            ),
        ),
{
    match assert_shape(dim, sample) {
        Err(e) => Err(e),
        Ok(()) => {
            let expr = nested_expr(SequenceKind::Vector, dim, sample);
            let ty = vector_type(elem, dim);
            let text = function_decl(false, name, ty.as_str(), expr.as_str());
            Ok(emit(name, path_for(unit, name, Visibility::Private), text))
        },
    }
}

/// The declaration of one item of a group.
pub open spec fn group_item_text(
    kind: GroupKind,
    public: bool,
    ty: Seq<char>,
    name: Seq<char>,
    value: Value,
) -> Seq<char> {
    let decl = match kind {
        GroupKind::Static => binding_text(Binding::Static, public, name, ty, expr_text(value)),
        GroupKind::Const => binding_text(Binding::Const, public, name, ty, expr_text(value)),
        GroupKind::Function => function_text(public, name, ty, expr_text(value)),
    };
    decl + "\n"@
}

/// The declarations of a group, one per item, in order.
pub open spec fn group_text(
    kind: GroupKind,
    public: bool,
    ty: Seq<char>,
    items: Seq<(String, Value)>,
) -> Seq<char> {
    concat_all(Seq::new(items.len(), |i: int| group_item_text(kind, public, ty, items[i].0@, items[i].1)))
}

/// Writes one declaration of type `ty` per `(name, value)` item, all stored under the
/// symbol `group`.
pub fn write_group(
    unit: &Unit,
    kind: GroupKind,
    vis: Visibility,
    group: &str,
    ty: &str,
    items: &Vec<(String, Value)>,
) -> (r: Emission)
    ensures
        emitted(
            r,
            group@,
            artifact_path(unit.out_dir@, unit.package@, group@, Visibility::Private),
            group_text(kind, vis == Visibility::Public, ty@, items@),
        ),
{
    let public = match vis {
        Visibility::Public => true,
        Visibility::Private => false,
    };
    let ghost parts = Seq::new(
        items@.len(),
        |i: int| group_item_text(kind, public, ty@, items@[i].0@, items@[i].1),
    );
    let mut text = String::new();
    let mut i: usize = 0;
    while i < items.len()
        invariant
            i <= items@.len(),
            parts == Seq::new(
                items@.len(),
                |i: int| group_item_text(kind, public, ty@, items@[i].0@, items@[i].1),
            ),
            text@ == concat_all(parts.take(i as int)),
        decreases items@.len() - i,
    {
        let expr = to_expr(&items[i].1);
        let decl = match kind {
            GroupKind::Static => binding_decl(Binding::Static, public, items[i].0.as_str(), ty, expr.as_str()),
            GroupKind::Const => binding_decl(Binding::Const, public, items[i].0.as_str(), ty, expr.as_str()),
            GroupKind::Function => function_decl(public, items[i].0.as_str(), ty, expr.as_str()),
        };
        text.append(decl.as_str());
        text.append("\n");
        proof {
            assert(parts.take(i + 1).drop_last() =~= parts.take(i as int));
        }
        i = i + 1;
    }
    assert(parts.take(items@.len() as int) =~= parts);
    emit(group, path_for(unit, group, Visibility::Private), text)
}

/// One field of a generated struct.
pub struct Field {
    pub public: bool,
    pub name: String,
    pub ty: String,
}

/// `pub name: TYPE,`
pub open spec fn field_text(public: bool, name: Seq<char>, ty: Seq<char>) -> Seq<char> {
    pub_text(public) + name + ": "@ + ty + ", "@
}

/// `pub struct NAME { FIELDS }`
pub open spec fn struct_text(public: bool, name: Seq<char>, fields: Seq<char>) -> Seq<char> {
    pub_text(public) + "struct "@ + name + " { "@ + fields + "}"@
}

pub open spec fn fields_text(fields: Seq<Field>) -> Seq<char> {
    concat_all(Seq::new(fields.len(), |i: int| field_text(fields[i].public, fields[i].name@, fields[i].ty@)))
}

/// The index of the first field whose type does not parse, if any.
pub open spec fn first_bad_field(fields: Seq<Field>) -> Option<int> {
    if exists|i: int| 0 <= i < fields.len() && !type_parses(fields[i].ty@) {
        Some(
            choose|i: int|
                0 <= i < fields.len() && !type_parses(fields[i].ty@) && forall|j: int|
                    0 <= j < i ==> type_parses(#[trigger] fields[j].ty@),
        )
    } else {
        None
    }
}

proof fn lemma_first_bad_field(fields: Seq<Field>, i: int)
    requires
        0 <= i < fields.len(),
        !type_parses(fields[i].ty@),
        forall|j: int| 0 <= j < i ==> type_parses(#[trigger] fields[j].ty@),
    ensures
        first_bad_field(fields) == Some(i),
{
    let k = choose|k: int|
        0 <= k < fields.len() && !type_parses(fields[k].ty@) && forall|j: int|
            0 <= j < k ==> type_parses(#[trigger] fields[j].ty@);
    if k < i {
        assert(type_parses(fields[k].ty@));
    }
    if i < k {
        assert(type_parses(fields[i].ty@));
    }
}

/// Writes the definition of the struct `name` with the given fields. Fails with the
/// index of the first field whose type does not parse, writing nothing.
pub fn write_struct(unit: &Unit, vis: Visibility, name: &str, fields: &Vec<Field>) -> (r: Result<
    Emission,
    usize,
>)
    ensures
        r is Err <==> first_bad_field(fields@) is Some,
        r matches Err(i) ==> first_bad_field(fields@) == Some(i as int),
        r matches Ok(em) ==> emitted(
            em,
            name@,
            artifact_path(unit.out_dir@, unit.package@, name@, Visibility::Private),
            struct_text(vis == Visibility::Public, name@, fields_text(fields@)),
        ),
{
    let ghost parts = Seq::new(
        fields@.len(),
        |i: int| field_text(fields@[i].public, fields@[i].name@, fields@[i].ty@),
    );
    let mut body = String::new();
    let mut i: usize = 0;
    while i < fields.len()
        invariant
            i <= fields@.len(),
            parts == Seq::new(
                fields@.len(),
                |i: int| field_text(fields@[i].public, fields@[i].name@, fields@[i].ty@),
            ),
            body@ == concat_all(parts.take(i as int)),
            forall|j: int| 0 <= j < i ==> type_parses(#[trigger] fields@[j].ty@),
        decreases fields@.len() - i,
    {
        let f = &fields[i];
        if !is_type(f.ty.as_str()) {
            proof {
                lemma_first_bad_field(fields@, i as int);
            }
            return Err(i);
        }
        push_pub(f.public, &mut body);
        body.append(f.name.as_str());
        body.append(": ");
        body.append(f.ty.as_str());
        body.append(", ");
        proof {
            assert(parts.take(i + 1).drop_last() =~= parts.take(i as int));
        }
        i = i + 1;
    }
    assert(parts.take(fields@.len() as int) =~= parts);
    assert(first_bad_field(fields@) is None);
    let text = struct_decl(vis == Visibility::Public, name, body.as_str());
    Ok(emit(name, path_for(unit, name, Visibility::Private), text))
}

fn struct_decl(public: bool, name: &str, fields: &str) -> (r: String)
    ensures
        r@ == struct_text(public, name@, fields@),
{
    let mut r = String::new();
    push_pub(public, &mut r);
    r.append("struct ");
    r.append(name);
    r.append(" { ");
    r.append(fields);
    r.append("}");
    assert(r@ =~= struct_text(public, name@, fields@));
    r
}

pub open spec fn uniform_fields_text(ty: Seq<char>, fields: Seq<(bool, String)>) -> Seq<char> {
    concat_all(Seq::new(fields.len(), |i: int| field_text(fields[i].0, fields[i].1@, ty)))
}

/// Writes the definition of the struct `name` whose fields, given by visibility and
/// name, all have the type `ty`.
pub fn write_struct_uniform(
    unit: &Unit,
    vis: Visibility,
    name: &str,
    ty: &str,
    fields: &Vec<(bool, String)>,
) -> (r: Emission)
    ensures
        emitted(
            r,
            name@,
            artifact_path(unit.out_dir@, unit.package@, name@, Visibility::Private),
            struct_text(vis == Visibility::Public, name@, uniform_fields_text(ty@, fields@)),
        ),
{
    let ghost parts = Seq::new(fields@.len(), |i: int| field_text(fields@[i].0, fields@[i].1@, ty@));
    let mut body = String::new();
    let mut i: usize = 0;
    while i < fields.len()
        invariant
            i <= fields@.len(),
            parts == Seq::new(fields@.len(), |i: int| field_text(fields@[i].0, fields@[i].1@, ty@)),
            body@ == concat_all(parts.take(i as int)),
        decreases fields@.len() - i,
    {
        push_pub(fields[i].0, &mut body);
        body.append(fields[i].1.as_str());
        body.append(": ");
        body.append(ty);
        body.append(", ");
        proof {
            assert(parts.take(i + 1).drop_last() =~= parts.take(i as int));
        }
        i = i + 1;
    }
    assert(parts.take(fields@.len() as int) =~= parts);
    let text = struct_decl(vis == Visibility::Public, name, body.as_str());
    emit(name, path_for(unit, name, Visibility::Private), text)
}

/// `name: EXPR, `
pub open spec fn init_field_text(name: Seq<char>, value: Value) -> Seq<char> {
    name + ": "@ + expr_text(value) + ", "@
}

/// `NAME { a: EXPR, b: EXPR, }`
pub open spec fn init_text(struct_name: Seq<char>, items: Seq<(String, Value)>) -> Seq<char> {
    struct_name + " { "@ + concat_all(
        Seq::new(items.len(), |i: int| init_field_text(items[i].0@, items[i].1)),
    ) + "}"@
}

/// Writes the expression that builds the struct `struct_name` from `(field, value)`
/// items, under the alias `vals_name`. The expression is written as it is, without a
/// parse: it is not a declaration.
pub fn write_struct_uniform_init(
    unit: &Unit,
    struct_name: &str,
    vals_name: &str,
    items: &Vec<(String, Value)>,
) -> (r: Emission)
    ensures
        r.symbol@ == init_symbol(struct_name@, vals_name@),
        r.path@ == artifact_path(
            unit.out_dir@,
            unit.package@,
            init_symbol(struct_name@, vals_name@),
            Visibility::Private,
        ),
        r.contents@ == init_text(struct_name@, items@),
        r.parse_error is None,
{
    let ghost parts = Seq::new(items@.len(), |i: int| init_field_text(items@[i].0@, items@[i].1));
    let mut body = String::new();
    let mut i: usize = 0;
    while i < items.len()
        invariant
            i <= items@.len(),
            parts == Seq::new(items@.len(), |i: int| init_field_text(items@[i].0@, items@[i].1)),
            body@ == concat_all(parts.take(i as int)),
        decreases items@.len() - i,
    {
        let expr = to_expr(&items[i].1);
        body.append(items[i].0.as_str());
        body.append(": ");
        body.append(expr.as_str());
        body.append(", ");
        proof {
            assert(parts.take(i + 1).drop_last() =~= parts.take(i as int));
        }
        i = i + 1;
    }
    assert(parts.take(items@.len() as int) =~= parts);
    let mut symbol = String::from_str(struct_name);
    symbol.append("_");
    symbol.append(vals_name);
    let mut text = String::from_str(struct_name);
    text.append(" { ");
    text.append(body.as_str());
    text.append("}");
    Emission {
        symbol,
        path: init_path_for(unit, struct_name, vals_name),
        contents: text,
        parse_error: None,
    }
}

/// Sets `name` up for export: the text of its private artifact, read back as
/// `private_text`, is re-emitted with a public modifier under the public path. Fails
/// with the export error message when no private artifact was written.
pub fn allow_export(unit: &Unit, name: &str, private_text: Option<String>) -> (r: Result<
    Emission,
    String,
>)
    ensures
        r is Err <==> private_text is None,
        r matches Err(m) ==> m@ == export_error_text(name@),
        r matches Ok(em) ==> (private_text matches Some(t) && emitted(
            em,
            name@,
            artifact_path(unit.out_dir@, unit.package@, name@, Visibility::Public),
            "pub "@ + t@,
        )),
{
    match private_text {
        None => Err(allow_export_error(name)),
        Some(t) => {
            let mut text = String::from_str("pub ");
            text.append(t.as_str());
            Ok(emit(name, path_for(unit, name, Visibility::Public), text))
        },
    }
}

} // verus!
