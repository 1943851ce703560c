//! Rendering of the intermediate representation as TypeScript declarations.
//!
//! Each unit is composed from fragments: a shape is written as a type expression,
//! a nested fragment is indented by two spaces per level, and a declaration gets a
//! doc comment only when it has a description or metadata. Declarations follow the
//! insertion order of the maps they come from.
use vstd::prelude::*;
use crate::error::Error;
use crate::ir::{Action, Entry, Literal, Schema, Service, Shape, YASpec};
use crate::ordered_map::OrderedMap;
use crate::text::push_char;

verus! {

/// The type expression for a shape. An entity is written by name, never inlined.
pub open spec fn shape_text(s: Shape) -> Seq<char>
    decreases s,
{
    match s {
        Shape::Bool => "boolean"@,
        Shape::Int => "number"@,
        Shape::Float => "number"@,
        Shape::String => "string"@,
        Shape::List { inner } => "Array<"@ + shape_text(*inner) + ">"@,
        Shape::Dict { key, value } => "Record<"@ + shape_text(*key) + ", "@ + shape_text(*value)
            + ">"@,
        Shape::Nullable { inner } => shape_text(*inner) + " | null"@,
        Shape::Entity { target } => target@,
    }
}

/// What character `i` of `s` becomes inside an indented block: a line break is
/// followed by one level of indentation, and a carriage return that ends a line
/// (`\r\n`) is dropped, as `str::lines` drops it.
pub open spec fn indented_char(s: Seq<char>, i: int) -> Seq<char> {
    if s[i] == '\n' {
        "\n  "@
    } else if s[i] == '\r' && i + 1 < s.len() && s[i + 1] == '\n' {
        Seq::empty()
    } else {
        seq![s[i]]
    }
}

/// The first `k` characters of `s`, each as [`indented_char`] makes it.
pub open spec fn indent_breaks(s: Seq<char>, k: nat) -> Seq<char>
    decreases k,
{
    if k == 0 || k > s.len() {
        Seq::empty()
    } else {
        indent_breaks(s, (k - 1) as nat) + indented_char(s, k - 1)
    }
}

/// `s` without its final line ending (`\n` or `\r\n`), if it has one.
pub open spec fn without_final_break(s: Seq<char>) -> Seq<char> {
    if s.len() >= 2 && s.last() == '\n' && s[s.len() - 2] == '\r' {
        s.take(s.len() - 2)
    } else if s.len() >= 1 && s.last() == '\n' {
        s.drop_last()
    } else {
        s
    }
}

/// Each line of `s` indented by two spaces. Lines end at `\n` or `\r\n`, which
/// become `\n`; a final line ending ends the last line rather than starting an
/// empty one.
pub open spec fn tab_text(s: Seq<char>) -> Seq<char> {
    if s.len() == 0 {
        Seq::empty()
    } else {
        let body = without_final_break(s);
        "  "@ + indent_breaks(body, body.len())
    }
}

fn append_indented(out: &mut String, s: &str)
    ensures
        final(out)@ == old(out)@ + indent_breaks(s@, s@.len()),
{
    let n = s.unicode_len();
    let mut i: usize = 0;
    while i < n
        invariant
            n == s@.len(),
            i <= n,
            out@ == old(out)@ + indent_breaks(s@, i as nat),
        decreases n - i,
    {
        let c = s.get_char(i);
        if c == '\n' {
            out.append("\n  ");
        } else if c == '\r' && i + 1 < n && s.get_char(i + 1) == '\n' {
        } else {
            push_char(out, c);
        }
        assert(out@ =~= old(out)@ + indent_breaks(s@, i as nat + 1));
        i = i + 1;
    }
}

/// Indents each line of `s` by two spaces, for splicing into an enclosing block.
pub fn tab(s: &str) -> (r: String)
    ensures
        r@ == tab_text(s@),
{
    let n = s.unicode_len();
    let mut out = String::new();
    if n == 0 {
        return out;
    }
    out.append("  ");
    let end = if n >= 2 && s.get_char(n - 1) == '\n' && s.get_char(n - 2) == '\r' {
        n - 2
    } else if s.get_char(n - 1) == '\n' {
        n - 1
    } else {
        n
    };
    let body = s.substring_char(0, end);
    assert(body@ =~= without_final_break(s@));
    append_indented(&mut out, body);
    out
}

fn append_shape(out: &mut String, s: &Shape)
    ensures
        final(out)@ == old(out)@ + shape_text(*s),
    decreases s,
{
    match s {
        Shape::Bool => out.append("boolean"),
        Shape::Int => out.append("number"),
        Shape::Float => out.append("number"),
        Shape::String => out.append("string"),
        Shape::List { inner } => {
            out.append("Array<");
            append_shape(out, inner);
            out.append(">");
        },
        Shape::Dict { key, value } => {
            out.append("Record<");
            append_shape(out, key);
            out.append(", ");
            append_shape(out, value);
            out.append(">");
        },
        Shape::Nullable { inner } => {
            append_shape(out, inner);
            out.append(" | null");
        },
        Shape::Entity { target } => out.append(target.as_str()),
    }
    assert(final(out)@ =~= old(out)@ + shape_text(*s));
}

/// Renders a shape as a type expression.
pub struct ShapeTemplate<'a>(pub &'a Shape);

impl<'a> ShapeTemplate<'a> {
    pub fn render(&self) -> (r: String)
        ensures
            r@ == shape_text(*self.0),
    {
        let mut out = String::new();
        append_shape(&mut out, self.0);
        assert(out@ =~= shape_text(*self.0));
        out
    }
}

/// The decimal digits of `n`.
pub open spec fn digits(n: nat) -> Seq<char>
    decreases n,
{
    if n < 10 {
        seq!["0123456789"@[n as int]]
    } else {
        digits(n / 10) + seq!["0123456789"@[(n % 10) as int]]
    }
}

/// An integer in decimal, with a leading `-` when negative.
pub open spec fn decimal(i: int) -> Seq<char> {
    if i < 0 {
        seq!['-'] + digits((-i) as nat)
    } else {
        digits(i as nat)
    }
}

/// Relies on `ToString` for `i64`, which writes the integer in decimal.
#[verifier::external_body]
fn int_text(i: i64) -> (r: String)
    ensures
        r@ == decimal(i as int),
{
    i.to_string()
}

/// What `serde_json::Number`'s `Display` writes for `n`.
pub uninterp spec fn number_text_of(n: serde_json::Number) -> Seq<char>;

/// Relies on `Display` for `serde_json::Number`, which depends on the number alone.
#[verifier::external_body]
fn number_text(n: &serde_json::Number) -> (r: String)
    ensures
        r@ == number_text_of(*n),
{
    n.to_string()
}

/// A literal as text: strings quoted, arrays and objects with their items
/// separated by `, `.
pub open spec fn literal_text(l: Literal) -> Seq<char>
    decreases l, 1nat, 0nat,
{
    match l {
        Literal::Bool(b) => if b {
            "true"@
        } else {
            "false"@
        },
        Literal::Int(i) => decimal(i as int),
        Literal::Float(n) => number_text_of(n),
        Literal::String(t) => "\""@ + t@ + "\""@,
        Literal::Array(v) => "["@ + items_text(l, v@.len()) + "]"@,
        Literal::Object(m) => "{"@ + members_text(l, m.entries@.len()) + "}"@,
    }
}

/// The first `k` items of an array literal.
pub open spec fn items_text(l: Literal, k: nat) -> Seq<char>
    decreases l, 0nat, k,
{
    match l {
        Literal::Array(v) => if k == 0 || k > v@.len() {
            Seq::empty()
        } else if k == 1 {
            literal_text(v@[0])
        } else {
            items_text(l, (k - 1) as nat) + ", "@ + literal_text(v@[k - 1])
        },
        _ => Seq::empty(),
    }
}

/// The first `k` members of an object literal, each as `key: value`.
pub open spec fn members_text(l: Literal, k: nat) -> Seq<char>
    decreases l, 0nat, k,
{
    match l {
        Literal::Object(m) => if k == 0 || k > m.entries@.len() {
            Seq::empty()
        } else {
            let e = m.entries@[k - 1];
            (if k == 1 {
                Seq::empty()
            } else {
                members_text(l, (k - 1) as nat) + ", "@
            }) + e.0@ + ": "@ + literal_text(e.1)
        },
        _ => Seq::empty(),
    }
}

fn append_literal(out: &mut String, l: &Literal)
    ensures
        final(out)@ == old(out)@ + literal_text(*l),
    decreases l,
{
    match l {
        Literal::Bool(b) => {
            if *b {
                out.append("true");
            } else {
                out.append("false");
            }
        },
        Literal::Int(i) => {
            let t = int_text(*i);
            out.append(t.as_str());
        },
        Literal::Float(n) => {
            let t = number_text(n);
            out.append(t.as_str());
        },
        Literal::String(t) => {
            out.append("\"");
            out.append(t.as_str());
            out.append("\"");
        },
        Literal::Array(v) => {
            out.append("[");
            let ghost start = out@;
            let mut i: usize = 0;
            while i < v.len()
                invariant
                    *l == Literal::Array(*v),
                    i <= v@.len(),
                    out@ == start + items_text(*l, i as nat),
                decreases v@.len() - i,
            {
                if i > 0 {
                    out.append(", ");
                }
                proof {
                    assert(decreases_to!(*l => (*l)->Array_0));
                    assert(decreases_to!(*v => v[i as int]));
                }
                append_literal(out, &v[i]);
                assert(out@ =~= start + items_text(*l, i as nat + 1));
                i = i + 1;
            }
            out.append("]");
        },
        Literal::Object(m) => {
            out.append("{");
            let ghost start = out@;
            let mut i: usize = 0;
            while i < m.entries.len()
                invariant
                    *l == Literal::Object(*m),
                    i <= m.entries@.len(),
                    out@ == start + members_text(*l, i as nat),
                decreases m.entries@.len() - i,
            {
                if i > 0 {
                    out.append(", ");
                }
                out.append(m.entries[i].0.as_str());
                out.append(": ");
                proof {
                    assert(decreases_to!(*l => (*l)->Object_0));
                    assert(decreases_to!(m.entries => m.entries[i as int]));
                }
                append_literal(out, &m.entries[i].1);
                assert(out@ =~= start + members_text(*l, i as nat + 1));
                i = i + 1;
            }
            out.append("}");
        },
    }
    assert(final(out)@ =~= old(out)@ + literal_text(*l));
}

/// The first `k` metadata entries as doc-comment tags, one per line.
pub open spec fn tags_text(metadata: Seq<(String, Literal)>, k: nat) -> Seq<char>
    decreases k,
{
    if k == 0 || k > metadata.len() {
        Seq::empty()
    } else {
        tags_text(metadata, (k - 1) as nat) + " * @"@ + metadata[k - 1].0@ + " "@ + literal_text(
            metadata[k - 1].1,
        ) + "\n"@
    }
}

/// The doc comment for a description and metadata; nothing at all when both are
/// absent.
pub open spec fn doc_text(description: Option<String>, metadata: Seq<(String, Literal)>) -> Seq<
    char,
> {
    if description is None && metadata.len() == 0 {
        Seq::empty()
    } else {
        "/**\n"@ + match description {
            Some(d) => " * "@ + d@ + "\n"@,
            None => Seq::empty(),
        } + tags_text(metadata, metadata.len()) + " */\n"@
    }
}

fn append_doc(out: &mut String, description: &Option<String>, metadata: &Vec<(String, Literal)>)
    ensures
        final(out)@ == old(out)@ + doc_text(*description, metadata@),
{
    if description.is_none() && metadata.len() == 0 {
        assert(old(out)@ + doc_text(*description, metadata@) =~= old(out)@);
        return;
    }
    out.append("/**\n");
    let ghost head = out@;
    if let Some(d) = description {
        out.append(" * ");
        out.append(d.as_str());
        out.append("\n");
    }
    let ghost start = out@;
    let mut i: usize = 0;
    while i < metadata.len()
        invariant
            i <= metadata@.len(),
            out@ == start + tags_text(metadata@, i as nat),
        decreases metadata@.len() - i,
    {
        out.append(" * @");
        out.append(metadata[i].0.as_str());
        out.append(" ");
        append_literal(out, &metadata[i].1);
        out.append("\n");
        assert(out@ =~= start + tags_text(metadata@, i as nat + 1));
        i = i + 1;
    }
    out.append(" */\n");
    assert(final(out)@ =~= old(out)@ + doc_text(*description, metadata@));
}

/// Renders a description as a doc comment, or as nothing when there is none.
pub struct DescriptionTemplate<'a>(pub &'a Option<String>);

impl<'a> DescriptionTemplate<'a> {
    pub fn render(&self) -> (r: String)
        ensures
            r@ == doc_text(*self.0, Seq::empty()),
    {
        let mut out = String::new();
        let none: Vec<(String, Literal)> = Vec::new();
        append_doc(&mut out, self.0, &none);
        assert(out@ =~= doc_text(*self.0, Seq::empty()));
        out
    }
}

/// The first `k` fields of a record, one line each, with their doc comments.
pub open spec fn fields_text(fs: Seq<(String, Entry<Shape>)>, k: nat) -> Seq<char>
    decreases k,
{
    if k == 0 || k > fs.len() {
        Seq::empty()
    } else {
        let e = fs[k - 1];
        fields_text(fs, (k - 1) as nat) + doc_text(e.1.description, e.1.metadata.entries@) + e.0@
            + ": "@ + shape_text(e.1.inner) + ";\n"@
    }
}

/// The first `k` alternatives of a union, one line each.
pub open spec fn variants_text(fs: Seq<(String, Entry<Shape>)>, k: nat) -> Seq<char>
    decreases k,
{
    if k == 0 || k > fs.len() {
        Seq::empty()
    } else {
        let e = fs[k - 1];
        variants_text(fs, (k - 1) as nat) + doc_text(e.1.description, e.1.metadata.entries@)
            + "| "@ + shape_text(e.1.inner) + "\n"@
    }
}

/// The first `k` members of an enumeration, one line each.
pub open spec fn members_of_enum_text(fs: Seq<(String, Entry<()>)>, k: nat) -> Seq<char>
    decreases k,
{
    if k == 0 || k > fs.len() {
        Seq::empty()
    } else {
        let e = fs[k - 1];
        members_of_enum_text(fs, (k - 1) as nat) + doc_text(e.1.description, e.1.metadata.entries@)
            + e.0@ + ",\n"@
    }
}

/// The declaration of the entity `name`.
pub open spec fn declaration_text(name: Seq<char>, e: Entry<Schema>) -> Seq<char> {
    doc_text(e.description, e.metadata.entries@) + match e.inner {
        Schema::Record { fields } => "export interface "@ + name + " {\n"@ + tab_text(
            fields_text(fields.entries@, fields.entries@.len()),
        ) + "\n}\n"@,
        Schema::Union { fields } => "export type "@ + name + " =\n"@ + tab_text(
            variants_text(fields.entries@, fields.entries@.len()),
        ) + ";\n"@,
        Schema::Enum { fields } => "export enum "@ + name + " {\n"@ + tab_text(
            members_of_enum_text(fields.entries@, fields.entries@.len()),
        ) + "\n}\n"@,
        Schema::Alias { shape } => "export type "@ + name + " = "@ + shape_text(shape) + ";\n"@,
    }
}

/// The first `k` inputs of an action as parameters, separated by `, `.
pub open spec fn params_text(inputs: Seq<(String, Entry<Shape>)>, k: nat) -> Seq<char>
    decreases k,
{
    if k == 0 || k > inputs.len() {
        Seq::empty()
    } else {
        (if k == 1 {
            Seq::empty()
        } else {
            params_text(inputs, (k - 1) as nat) + ", "@
        }) + inputs[k - 1].0@ + ": "@ + shape_text(inputs[k - 1].1.inner)
    }
}

/// An output's type; an output without a shape returns nothing.
pub open spec fn output_type_text(o: Option<Shape>) -> Seq<char> {
    match o {
        Some(s) => shape_text(s),
        None => "void"@,
    }
}

pub open spec fn output_items_text(outputs: Seq<(String, Entry<Option<Shape>>)>, k: nat) -> Seq<
    char,
>
    decreases k,
{
    if k == 0 || k > outputs.len() {
        Seq::empty()
    } else {
        output_items_text(outputs, (k - 1) as nat) + outputs[k - 1].0@ + ": "@ + output_type_text(
            outputs[k - 1].1.inner,
        ) + "; "@
    }
}

/// What an action resolves to: nothing without outputs, else an object of them.
pub open spec fn outputs_text(outputs: Seq<(String, Entry<Option<Shape>>)>) -> Seq<char> {
    if outputs.len() == 0 {
        "void"@
    } else {
        "{ "@ + output_items_text(outputs, outputs.len()) + "}"@
    }
}

/// The method signature of the action `name`.
pub open spec fn action_text(name: Seq<char>, a: Entry<Action>) -> Seq<char> {
    doc_text(a.description, a.metadata.entries@) + name + "("@ + params_text(
        a.inner.inputs.entries@,
        a.inner.inputs.entries@.len(),
    ) + "): Promise<"@ + outputs_text(a.inner.outputs.entries@) + ">;\n"@
}

pub open spec fn actions_text(actions: Seq<(String, Entry<Action>)>, k: nat) -> Seq<char>
    decreases k,
{
    if k == 0 || k > actions.len() {
        Seq::empty()
    } else {
        actions_text(actions, (k - 1) as nat) + action_text(actions[k - 1].0@, actions[k - 1].1)
    }
}

/// The declaration of the service `name`: an interface of its actions.
pub open spec fn service_text(name: Seq<char>, s: Entry<Service>) -> Seq<char> {
    doc_text(s.description, s.metadata.entries@) + "export interface "@ + name + " {\n"@
        + tab_text(actions_text(s.inner.actions.entries@, s.inner.actions.entries@.len()))
        + "\n}\n"@
}

/// The first `k` entity declarations, each after a blank line.
pub open spec fn declarations_text(es: Seq<(String, Entry<Schema>)>, k: nat) -> Seq<char>
    decreases k,
{
    if k == 0 || k > es.len() {
        Seq::empty()
    } else {
        declarations_text(es, (k - 1) as nat) + "\n"@ + declaration_text(es[k - 1].0@, es[k - 1].1)
    }
}

/// The first `k` service declarations, each after a blank line.
pub open spec fn services_text(ss: Seq<(String, Entry<Service>)>, k: nat) -> Seq<char>
    decreases k,
{
    if k == 0 || k > ss.len() {
        Seq::empty()
    } else {
        services_text(ss, (k - 1) as nat) + "\n"@ + service_text(ss[k - 1].0@, ss[k - 1].1)
    }
}

/// The whole unit: a header line, the document's description, then every entity
/// and every service in the order of insertion.
pub open spec fn root_text(y: YASpec) -> Seq<char> {
    "// "@ + y.name@ + " "@ + y.version@ + "\n"@ + doc_text(y.description, Seq::empty())
        + declarations_text(y.entities.entries@, y.entities.entries@.len()) + services_text(
        y.services.entries@,
        y.services.entries@.len(),
    )
}

fn append_fields(out: &mut String, fields: &OrderedMap<Entry<Shape>>)
    ensures
        final(out)@ == old(out)@ + fields_text(fields.entries@, fields.entries@.len()),
{
    let ghost start = out@;
    let mut i: usize = 0;
    while i < fields.entries.len()
        invariant
            i <= fields.entries@.len(),
            out@ == start + fields_text(fields.entries@, i as nat),
        decreases fields.entries@.len() - i,
    {
        let e = &fields.entries[i];
        append_doc(out, &e.1.description, &e.1.metadata.entries);
        out.append(e.0.as_str());
        out.append(": ");
        append_shape(out, &e.1.inner);
        out.append(";\n");
        assert(out@ =~= start + fields_text(fields.entries@, i as nat + 1));
        i = i + 1;
    }
}

fn append_variants(out: &mut String, fields: &OrderedMap<Entry<Shape>>)
    ensures
        final(out)@ == old(out)@ + variants_text(fields.entries@, fields.entries@.len()),
{
    let ghost start = out@;
    let mut i: usize = 0;
    while i < fields.entries.len()
        invariant
            i <= fields.entries@.len(),
            out@ == start + variants_text(fields.entries@, i as nat),
        decreases fields.entries@.len() - i,
    {
        let e = &fields.entries[i];
        append_doc(out, &e.1.description, &e.1.metadata.entries);
        out.append("| ");
        append_shape(out, &e.1.inner);
        out.append("\n");
        assert(out@ =~= start + variants_text(fields.entries@, i as nat + 1));
        i = i + 1;
    }
}

fn append_enum_members(out: &mut String, fields: &OrderedMap<Entry<()>>)
    ensures
        final(out)@ == old(out)@ + members_of_enum_text(fields.entries@, fields.entries@.len()),
{
    let ghost start = out@;
    let mut i: usize = 0;
    while i < fields.entries.len()
        invariant
            i <= fields.entries@.len(),
            out@ == start + members_of_enum_text(fields.entries@, i as nat),
        decreases fields.entries@.len() - i,
    {
        let e = &fields.entries[i];
        append_doc(out, &e.1.description, &e.1.metadata.entries);
        out.append(e.0.as_str());
        out.append(",\n");
        assert(out@ =~= start + members_of_enum_text(fields.entries@, i as nat + 1));
        i = i + 1;
    }
}

/// Appends `body` indented by one level.
fn append_block(out: &mut String, body: &String)
    ensures
        final(out)@ == old(out)@ + tab_text(body@),
{
    let t = tab(body.as_str());
    out.append(t.as_str());
}

/// Renders the declaration of the entity `name`.
pub fn render_declaration(name: &str, e: &Entry<Schema>) -> (r: String)
    ensures
        r@ == declaration_text(name@, *e),
{
    let mut out = String::new();
    append_doc(&mut out, &e.description, &e.metadata.entries);
    match &e.inner {
        Schema::Record { fields } => {
            out.append("export interface ");
            out.append(name);
            out.append(" {\n");
            let mut body = String::new();
            append_fields(&mut body, fields);
            append_block(&mut out, &body);
            out.append("\n}\n");
        },
        Schema::Union { fields } => {
            out.append("export type ");
            out.append(name);
            out.append(" =\n");
            let mut body = String::new();
            append_variants(&mut body, fields);
            append_block(&mut out, &body);
            out.append(";\n");
        },
        Schema::Enum { fields } => {
            out.append("export enum ");
            out.append(name);
            out.append(" {\n");
            let mut body = String::new();
            append_enum_members(&mut body, fields);
            append_block(&mut out, &body);
            out.append("\n}\n");
        },
        Schema::Alias { shape } => {
            out.append("export type ");
            out.append(name);
            out.append(" = ");
            append_shape(&mut out, shape);
            out.append(";\n");
        },
    }
    assert(out@ =~= declaration_text(name@, *e));
    out
}

fn append_action(out: &mut String, name: &str, a: &Entry<Action>)
    ensures
        final(out)@ == old(out)@ + action_text(name@, *a),
{
    append_doc(out, &a.description, &a.metadata.entries);
    out.append(name);
    out.append("(");
    let inputs = &a.inner.inputs.entries;
    let ghost start = out@;
    let mut i: usize = 0;
    while i < inputs.len()
        invariant
            i <= inputs@.len(),
            out@ == start + params_text(inputs@, i as nat),
        decreases inputs@.len() - i,
    {
        if i > 0 {
            out.append(", ");
        }
        out.append(inputs[i].0.as_str());
        out.append(": ");
        append_shape(out, &inputs[i].1.inner);
        assert(out@ =~= start + params_text(inputs@, i as nat + 1));
        i = i + 1;
    }
    out.append("): Promise<");
    let outputs = &a.inner.outputs.entries;
    if outputs.len() == 0 {
        out.append("void");
    } else {
        out.append("{ ");
        let ghost start = out@;
        let mut j: usize = 0;
        while j < outputs.len()
            invariant
                j <= outputs@.len(),
                out@ == start + output_items_text(outputs@, j as nat),
            decreases outputs@.len() - j,
        {
            out.append(outputs[j].0.as_str());
            out.append(": ");
            match &outputs[j].1.inner {
                Some(s) => append_shape(out, s),
                None => out.append("void"),
            }
            out.append("; ");
            assert(out@ =~= start + output_items_text(outputs@, j as nat + 1));
            j = j + 1;
        }
        out.append("}");
    }
    out.append(">;\n");
    assert(final(out)@ =~= old(out)@ + action_text(name@, *a));
}

/// Renders an action as a method signature.
pub struct ActionTemplate<'a>(pub &'a str, pub &'a Entry<Action>);

impl<'a> ActionTemplate<'a> {
    pub fn render(&self) -> (r: String)
        ensures
            r@ == action_text(self.0@, *self.1),
    {
        let mut out = String::new();
        append_action(&mut out, self.0, self.1);
        assert(out@ =~= action_text(self.0@, *self.1));
        out
    }
}

/// Renders the declaration of the service `name`.
pub fn render_service(name: &str, s: &Entry<Service>) -> (r: String)
    ensures
        r@ == service_text(name@, *s),
{
    let mut out = String::new();
    append_doc(&mut out, &s.description, &s.metadata.entries);
    out.append("export interface ");
    out.append(name);
    out.append(" {\n");
    let actions = &s.inner.actions.entries;
    let mut body = String::new();
    let mut i: usize = 0;
    while i < actions.len()
        invariant
            i <= actions@.len(),
            body@ == actions_text(actions@, i as nat),
        decreases actions@.len() - i,
    {
        append_action(&mut body, actions[i].0.as_str(), &actions[i].1);
        i = i + 1;
    }
    append_block(&mut out, &body);
    out.append("\n}\n");
    assert(out@ =~= service_text(name@, *s));
    out
}

/// Every entity that `s` names is among `keys`.
pub open spec fn shape_resolves(s: Shape, keys: Seq<Seq<char>>) -> bool
    decreases s,
{
    match s {
        Shape::List { inner } => shape_resolves(*inner, keys),
        Shape::Dict { key, value } => shape_resolves(*key, keys) && shape_resolves(*value, keys),
        Shape::Nullable { inner } => shape_resolves(*inner, keys),
        Shape::Entity { target } => keys.contains(target@),
        _ => true,
    }
}

pub open spec fn fields_resolve(fs: Seq<(String, Entry<Shape>)>, keys: Seq<Seq<char>>) -> bool {
    forall|i: int| #![trigger fs[i]] 0 <= i < fs.len() ==> shape_resolves(fs[i].1.inner, keys)
}

/// Every entity that the definition names is among `keys`.
pub open spec fn entity_resolves(e: Schema, keys: Seq<Seq<char>>) -> bool {
    match e {
        Schema::Record { fields } => fields_resolve(fields.entries@, keys),
        Schema::Union { fields } => fields_resolve(fields.entries@, keys),
        Schema::Enum { .. } => true,
        Schema::Alias { shape } => shape_resolves(shape, keys),
    }
}

/// Every entity that the action's inputs and outputs name is among `keys`.
pub open spec fn action_resolves(a: Action, keys: Seq<Seq<char>>) -> bool {
    &&& fields_resolve(a.inputs.entries@, keys)
    &&& forall|i: int|
        #![trigger a.outputs.entries@[i]]
        0 <= i < a.outputs.entries@.len() ==> match a.outputs.entries@[i].1.inner {
            Some(s) => shape_resolves(s, keys),
            None => true,
        }
}

/// The names of the first `k` entities that name an entity outside `keys`.
pub open spec fn faulty_entities(es: Seq<(String, Entry<Schema>)>, keys: Seq<Seq<char>>, k: nat) -> Seq<
    Seq<char>,
>
    decreases k,
{
    if k == 0 || k > es.len() {
        Seq::empty()
    } else {
        faulty_entities(es, keys, (k - 1) as nat) + if entity_resolves(es[k - 1].1.inner, keys) {
            Seq::empty()
        } else {
            seq![es[k - 1].0@]
        }
    }
}

/// The names of the first `k` actions that name an entity outside `keys`.
pub open spec fn faulty_actions(acts: Seq<(String, Entry<Action>)>, keys: Seq<Seq<char>>, k: nat) -> Seq<
    Seq<char>,
>
    decreases k,
{
    if k == 0 || k > acts.len() {
        Seq::empty()
    } else {
        faulty_actions(acts, keys, (k - 1) as nat) + if action_resolves(acts[k - 1].1.inner, keys) {
            Seq::empty()
        } else {
            seq![acts[k - 1].0@]
        }
    }
}

/// The faulty actions of the first `k` services, service by service.
pub open spec fn faulty_services(ss: Seq<(String, Entry<Service>)>, keys: Seq<Seq<char>>, k: nat) -> Seq<
    Seq<char>,
>
    decreases k,
{
    if k == 0 || k > ss.len() {
        Seq::empty()
    } else {
        let acts = ss[k - 1].1.inner.actions.entries@;
        faulty_services(ss, keys, (k - 1) as nat) + faulty_actions(acts, keys, acts.len())
    }
}

/// The first entity, else the first action, that names an entity the document
/// does not define.
pub open spec fn first_fault(y: YASpec) -> Option<Seq<char>> {
    let keys = y.entities.keys();
    let fe = faulty_entities(y.entities.entries@, keys, y.entities.entries@.len());
    let fa = faulty_services(y.services.entries@, keys, y.services.entries@.len());
    if fe.len() > 0 {
        Some(fe[0])
    } else if fa.len() > 0 {
        Some(fa[0])
    } else {
        None
    }
}

/// A sequence that each step only extends keeps every earlier step as a prefix.
proof fn lemma_steps_extend<A>(f: spec_fn(nat) -> Seq<A>, k: nat, j: nat)
    requires
        k <= j,
        forall|m: nat|
            k < m <= j ==> f((m - 1) as nat).is_prefix_of(#[trigger] f(m)),
    ensures
        f(k).len() <= f(j).len(),
        forall|x: int| 0 <= x < f(k).len() ==> #[trigger] f(j)[x] == f(k)[x],
    decreases j - k,
{
    if j > k {
        lemma_steps_extend(f, k, (j - 1) as nat);
        assert(f((j - 1) as nat).is_prefix_of(f(j)));
        assert forall|x: int| 0 <= x < f((j - 1) as nat).len() implies #[trigger] f(j)[x] == f(
            (j - 1) as nat,
        )[x] by {
            assert(f(j).subrange(0, f((j - 1) as nat).len() as int)[x] == f(j)[x]);
        }
    }
}

fn check_shape(s: &Shape, entities: &OrderedMap<Entry<Schema>>) -> (r: bool)
    ensures
        r == shape_resolves(*s, entities.keys()),
    decreases s,
{
    match s {
        Shape::List { inner } => check_shape(inner, entities),
        Shape::Dict { key, value } => check_shape(key, entities) && check_shape(value, entities),
        Shape::Nullable { inner } => check_shape(inner, entities),
        Shape::Entity { target } => entities.contains_key(target.as_str()),
        _ => true,
    }
}

fn check_fields(fs: &Vec<(String, Entry<Shape>)>, entities: &OrderedMap<Entry<Schema>>) -> (r: bool)
    ensures
        r == fields_resolve(fs@, entities.keys()),
{
    let mut i: usize = 0;
    while i < fs.len()
        invariant
            i <= fs@.len(),
            forall|j: int| #![trigger fs@[j]] 0 <= j < i ==> shape_resolves(fs@[j].1.inner, entities.keys()),
        decreases fs@.len() - i,
    {
        if !check_shape(&fs[i].1.inner, entities) {
            return false;
        }
        i = i + 1;
    }
    true
}

fn check_entity(e: &Schema, entities: &OrderedMap<Entry<Schema>>) -> (r: bool)
    ensures
        r == entity_resolves(*e, entities.keys()),
{
    match e {
        Schema::Record { fields } => check_fields(&fields.entries, entities),
        Schema::Union { fields } => check_fields(&fields.entries, entities),
        Schema::Enum { .. } => true,
        Schema::Alias { shape } => check_shape(shape, entities),
    }
}

fn check_action(a: &Action, entities: &OrderedMap<Entry<Schema>>) -> (r: bool)
    ensures
        r == action_resolves(*a, entities.keys()),
{
    if !check_fields(&a.inputs.entries, entities) {
        return false;
    }
    let outs = &a.outputs.entries;
    let mut i: usize = 0;
    while i < outs.len()
        invariant
            i <= outs@.len(),
            *outs == a.outputs.entries,
            forall|j: int|
                #![trigger outs@[j]]
                0 <= j < i ==> match outs@[j].1.inner {
                    Some(s) => shape_resolves(s, entities.keys()),
                    None => true,
                },
        decreases outs@.len() - i,
    {
        if let Some(s) = &outs[i].1.inner {
            if !check_shape(s, entities) {
                return false;
            }
        }
        i = i + 1;
    }
    true
}

/// The first entity, else the first action, that names an undefined entity.
pub fn find_fault(y: &YASpec) -> (r: Option<String>)
    ensures
        match first_fault(*y) {
            None => r is None,
            Some(n) => r matches Some(m) && m@ == n,
        },
{
    let ghost keys = y.entities.keys();
    let es = &y.entities.entries;
    let mut i: usize = 0;
    while i < es.len()
        invariant
            i <= es@.len(),
            *es == y.entities.entries,
            keys == y.entities.keys(),
            faulty_entities(es@, keys, i as nat).len() == 0,
        decreases es@.len() - i,
    {
        if !check_entity(&es[i].1.inner, &y.entities) {
            proof {
                let f = |m: nat| faulty_entities(es@, keys, m);
                assert forall|m: nat| i + 1 < m <= es@.len() implies f((m - 1) as nat).is_prefix_of(
                    #[trigger] f(m),
                ) by {
                    let t = if entity_resolves(es@[m - 1].1.inner, keys) {
                        Seq::empty()
                    } else {
                        seq![es@[m - 1].0@]
                    };
                    assert(f(m) == f((m - 1) as nat) + t);
                    assert((f((m - 1) as nat) + t).subrange(0, f((m - 1) as nat).len() as int) =~= f((m - 1) as nat));
                }
                lemma_steps_extend(f, i as nat + 1, es@.len());
            }
            return Some(es[i].0.clone());
        }
        i = i + 1;
    }
    let ss = &y.services.entries;
    let mut k: usize = 0;
    while k < ss.len()
        invariant
            k <= ss@.len(),
            *ss == y.services.entries,
            *es == y.entities.entries,
            keys == y.entities.keys(),
            faulty_entities(es@, keys, es@.len()).len() == 0,
            faulty_services(ss@, keys, k as nat).len() == 0,
        decreases ss@.len() - k,
    {
        let acts = &ss[k].1.inner.actions.entries;
        let mut j: usize = 0;
        while j < acts.len()
            invariant
                j <= acts@.len(),
                k < ss@.len(),
                *acts == ss@[k as int].1.inner.actions.entries,
                *ss == y.services.entries,
                *es == y.entities.entries,
                keys == y.entities.keys(),
                faulty_entities(es@, keys, es@.len()).len() == 0,
                faulty_services(ss@, keys, k as nat).len() == 0,
                faulty_actions(acts@, keys, j as nat).len() == 0,
            decreases acts@.len() - j,
        {
            if !check_action(&acts[j].1.inner, &y.entities) {
                proof {
                    let fa = |m: nat| faulty_actions(acts@, keys, m);
                    assert forall|m: nat| j + 1 < m <= acts@.len() implies fa((m - 1) as nat).is_prefix_of(
                    #[trigger] fa(m),
                ) by {
                        let t = if action_resolves(acts@[m - 1].1.inner, keys) {
                            Seq::empty()
                        } else {
                            seq![acts@[m - 1].0@]
                        };
                        assert(fa(m) == fa((m - 1) as nat) + t);
                        assert((fa((m - 1) as nat) + t).subrange(0, fa((m - 1) as nat).len() as int) =~= fa((m - 1) as nat));
                    }
                    lemma_steps_extend(fa, j as nat + 1, acts@.len());
                    let fs = |m: nat| faulty_services(ss@, keys, m);
                    assert forall|m: nat| k + 1 < m <= ss@.len() implies fs((m - 1) as nat).is_prefix_of(
                    #[trigger] fs(m),
                ) by {
                        let a2 = ss@[m - 1].1.inner.actions.entries@;
                        let t = faulty_actions(a2, keys, a2.len());
                        assert(fs(m) == fs((m - 1) as nat) + t);
                        assert((fs((m - 1) as nat) + t).subrange(0, fs((m - 1) as nat).len() as int) =~= fs((m - 1) as nat));
                    }
                    lemma_steps_extend(fs, k as nat + 1, ss@.len());
                    assert(faulty_services(ss@, keys, k as nat + 1) =~= faulty_actions(
                        acts@,
                        keys,
                        acts@.len(),
                    ));
                }
                return Some(acts[j].0.clone());
            }
            j = j + 1;
        }
        assert(faulty_services(ss@, keys, k as nat + 1) =~= Seq::<Seq<char>>::empty());
        k = k + 1;
    }
    None
}

/// Renders a whole document. A document whose entities or actions name an entity
/// it does not define breaks the contract of the fragments: nothing is rendered,
/// and the error names the first entity, else the first action, at fault.
pub struct RootTemplate<'a>(pub &'a YASpec);

impl<'a> RootTemplate<'a> {
    pub fn render(&self) -> (r: Result<String, Error>)
        ensures
            match first_fault(*self.0) {
                None => r matches Ok(t) && t@ == root_text(*self.0),
                Some(n) => r matches Err(Error::EmissionFormatError { name }) && name@ == n,
            },
    {
        let y = self.0;
        if let Some(name) = find_fault(y) {
            return Err(Error::EmissionFormatError { name });
        }
        let mut out = String::new();
        out.append("// ");
        out.append(y.name.as_str());
        out.append(" ");
        out.append(y.version.as_str());
        out.append("\n");
        let none: Vec<(String, Literal)> = Vec::new();
        append_doc(&mut out, &y.description, &none);
        assert(none@ =~= Seq::<(String, Literal)>::empty());
        let ghost head = out@;
        let es = &y.entities.entries;
        let mut i: usize = 0;
        while i < es.len()
            invariant
                i <= es@.len(),
                out@ == head + declarations_text(es@, i as nat),
            decreases es@.len() - i,
        {
            out.append("\n");
            let d = render_declaration(es[i].0.as_str(), &es[i].1);
            out.append(d.as_str());
            assert(out@ =~= head + declarations_text(es@, i as nat + 1));
            i = i + 1;
        }
        let ghost mid = out@;
        let ss = &y.services.entries;
        let mut k: usize = 0;
        while k < ss.len()
            invariant
                k <= ss@.len(),
                out@ == mid + services_text(ss@, k as nat),
            decreases ss@.len() - k,
        {
            out.append("\n");
            let d = render_service(ss[k].0.as_str(), &ss[k].1);
            out.append(d.as_str());
            assert(out@ =~= mid + services_text(ss@, k as nat + 1));
            k = k + 1;
        }
        assert(out@ =~= root_text(*y));
        Ok(out)
    }
}

/// Declarations follow insertion order: the declarations of the first `j`
/// entities are those of the first `k`, followed by those of the next `j - k`,
/// each in turn. For entities inserted as A, B, C the text is A's declaration,
/// then B's, then C's.
pub proof fn law_declarations_in_insertion_order(es: Seq<(String, Entry<Schema>)>, k: nat, j: nat)
    requires
        k <= j <= es.len(),
    ensures
        declarations_text(es, j) == declarations_text(es, k) + declarations_text(
            es.skip(k as int),
            (j - k) as nat,
        ),
    decreases j - k,
{
    if j == k {
        assert(declarations_text(es.skip(k as int), 0) =~= Seq::<char>::empty());
        assert(declarations_text(es, j) =~= declarations_text(es, k) + Seq::<char>::empty());
    } else {
        law_declarations_in_insertion_order(es, k, (j - 1) as nat);
        let rest = es.skip(k as int);
        assert(rest[(j - k - 1) as int] == es[j - 1]);
        assert(declarations_text(es, j) =~= declarations_text(es, k) + declarations_text(
            rest,
            (j - k) as nat,
        ));
    }
}

} // verus!
