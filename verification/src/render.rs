//! Writing the model back out as source text.
use vstd::prelude::*;
use crate::model::{Attr, Block, Field, FieldType, Fields, FieldsShape, ImplItemFn, PathArgs, Signature, Stmt, TypePath};
use crate::text::{join, join_strings, text, views};

verus! {

/// The attributes, each followed by a space.
pub open spec fn attrs_text(attrs: Seq<Attr>) -> Seq<char>
    decreases attrs.len(),
{
    if attrs.len() == 0 {
        Seq::empty()
    } else {
        attrs_text(attrs.drop_last()) + attrs.last().text@ + " "@
    }
}

/// The arguments of a path segment.
pub open spec fn path_args_text(a: PathArgs) -> Seq<char> {
    match a {
        PathArgs::Bare => Seq::empty(),
        PathArgs::Angle(v) => "<"@ + join(views(v@), ", "@) + ">"@,
        PathArgs::Parenthesized(t) => t@,
    }
}

pub open spec fn type_path_text(t: TypePath) -> Seq<char> {
    t.prefix@ + t.ident@ + path_args_text(t.args)
}

pub open spec fn field_type_text(t: FieldType) -> Seq<char> {
    match t {
        FieldType::Path(p) => type_path_text(p),
        FieldType::Other(x) => x@,
    }
}

pub open spec fn field_text(f: Field) -> Seq<char> {
    attrs_text(f.attrs@) + f.vis@ + " "@ + match f.ident {
        Some(i) => i@ + ": "@,
        None => Seq::empty(),
    } + field_type_text(f.ty)
}

pub open spec fn field_texts(fs: Seq<Field>) -> Seq<Seq<char>> {
    fs.map_values(|f: Field| field_text(f))
}

/// The fields as they follow a struct's name and generics.
pub open spec fn fields_text(fs: Fields) -> Seq<char> {
    match fs.shape {
        FieldsShape::Named => "{ "@ + join(field_texts(fs.fields@), ", "@) + " }"@,
        FieldsShape::Unnamed => "("@ + join(field_texts(fs.fields@), ", "@) + ")"@,
        FieldsShape::Unit => Seq::empty(),
    }
}

pub open spec fn sig_text(s: Signature) -> Seq<char> {
    s.qualifiers@ + " fn "@ + s.ident@ + s.generics@ + "("@ + join(views(s.inputs@), ", "@) + ") "@
        + s.output_text@ + " "@ + s.where_clause@
}

pub open spec fn stmt_texts(stmts: Seq<Stmt>) -> Seq<Seq<char>> {
    stmts.map_values(|s: Stmt| s.text@)
}

/// Statements one after another, in braces.
pub open spec fn braced(stmts: Seq<Seq<char>>) -> Seq<char> {
    "{ "@ + join(stmts, " "@) + " }"@
}

pub open spec fn block_text(b: Block) -> Seq<char> {
    braced(stmt_texts(b.stmts@))
}

/// A function's attributes, visibility and `default` marker, before its signature.
pub open spec fn fn_head_text(attrs: Seq<Attr>, vis: Seq<char>, defaultness: bool) -> Seq<char> {
    attrs_text(attrs) + vis + " "@ + if defaultness {
        "default "@
    } else {
        Seq::empty()
    }
}

/// A function as it stands, with the attributes `attrs`.
pub open spec fn fn_text(attrs: Seq<Attr>, f: ImplItemFn) -> Seq<char> {
    fn_head_text(attrs, f.vis@, f.defaultness) + sig_text(f.sig) + " "@ + block_text(f.block)
}

/// Writes the attributes, each followed by a space.
pub fn render_attrs(attrs: &Vec<Attr>) -> (r: String)
    ensures
        r@ == attrs_text(attrs@),
{
    let mut r = String::new();
    let n = attrs.len();
    let mut i: usize = 0;
    while i < n
        invariant
            n == attrs@.len(),
            i <= n,
            r@ == attrs_text(attrs@.take(i as int)),
        decreases n - i,
    {
        assert(attrs@.take(i + 1).drop_last() =~= attrs@.take(i as int));
        if i == 0 {
            assert(attrs@.take(0) =~= Seq::<Attr>::empty());
        }
        r.append(attrs[i].text.as_str());
        r.append(" ");
        i = i + 1;
    }
    assert(attrs@.take(n as int) =~= attrs@);
    r
}

pub fn render_path_args(a: &PathArgs) -> (r: String)
    ensures
        r@ == path_args_text(*a),
{
    match a {
        PathArgs::Bare => String::new(),
        PathArgs::Angle(v) => {
            let mut r = text("<");
            let inner = join_strings(v, ", ");
            r.append(inner.as_str());
            r.append(">");
            r
        },
        PathArgs::Parenthesized(t) => t.clone(),
    }
}

pub fn render_type_path(t: &TypePath) -> (r: String)
    ensures
        r@ == type_path_text(*t),
{
    let mut r = t.prefix.clone();
    r.append(t.ident.as_str());
    let a = render_path_args(&t.args);
    r.append(a.as_str());
    r
}

pub fn render_field(f: &Field) -> (r: String)
    ensures
        r@ == field_text(*f),
{
    let mut r = render_attrs(&f.attrs);
    r.append(f.vis.as_str());
    r.append(" ");
    match &f.ident {
        Some(i) => {
            r.append(i.as_str());
            r.append(": ");
        },
        None => {},
    }
    let t = match &f.ty {
        FieldType::Path(p) => render_type_path(p),
        FieldType::Other(x) => x.clone(),
    };
    r.append(t.as_str());
    r
}

pub fn render_fields(fs: &Fields) -> (r: String)
    ensures
        r@ == fields_text(*fs),
{
    let mut parts: Vec<String> = Vec::new();
    let n = fs.fields.len();
    let mut i: usize = 0;
    while i < n
        invariant
            n == fs.fields@.len(),
            i <= n,
            views(parts@) == field_texts(fs.fields@.take(i as int)),
        decreases n - i,
    {
        let ghost old_p = parts@;
        let t = render_field(&fs.fields[i]);
        parts.push(t);
        assert(views(parts@) =~= views(old_p).push(t@));
        assert(field_texts(fs.fields@.take(i + 1)) =~= field_texts(fs.fields@.take(i as int)).push(
            field_text(fs.fields@[i as int]),
        ));
        i = i + 1;
    }
    assert(fs.fields@.take(n as int) =~= fs.fields@);
    let inner = join_strings(&parts, ", ");
    match fs.shape {
        FieldsShape::Named => {
            let mut r = text("{ ");
            r.append(inner.as_str());
            r.append(" }");
            r
        },
        FieldsShape::Unnamed => {
            let mut r = text("(");
            r.append(inner.as_str());
            r.append(")");
            r
        },
        FieldsShape::Unit => String::new(),
    }
}

pub fn render_sig(s: &Signature) -> (r: String)
    ensures
        r@ == sig_text(*s),
{
    let mut r = s.qualifiers.clone();
    r.append(" fn ");
    r.append(s.ident.as_str());
    r.append(s.generics.as_str());
    r.append("(");
    let inputs = join_strings(&s.inputs, ", ");
    r.append(inputs.as_str());
    r.append(") ");
    r.append(s.output_text.as_str());
    r.append(" ");
    r.append(s.where_clause.as_str());
    r
}

/// Writes statement texts one after another, in braces.
pub fn render_braced(stmts: &Vec<String>) -> (r: String)
    ensures
        r@ == braced(views(stmts@)),
{
    let mut r = text("{ ");
    let inner = join_strings(stmts, " ");
    r.append(inner.as_str());
    r.append(" }");
    r
}

/// The texts of the first `count` statements.
pub fn stmt_prefix(stmts: &Vec<Stmt>, count: usize) -> (r: Vec<String>)
    requires
        count <= stmts@.len(),
    ensures
        views(r@) == stmt_texts(stmts@.take(count as int)),
{
    let mut r: Vec<String> = Vec::new();
    let mut i: usize = 0;
    while i < count
        invariant
            count <= stmts@.len(),
            i <= count,
            views(r@) == stmt_texts(stmts@.take(i as int)),
        decreases count - i,
    {
        let ghost old_r = r@;
        let t = stmts[i].text.clone();
        r.push(t);
        assert(views(r@) =~= views(old_r).push(t@));
        assert(stmt_texts(stmts@.take(i + 1)) =~= stmt_texts(stmts@.take(i as int)).push(
            stmts@[i as int].text@,
        ));
        i = i + 1;
    }
    r
}

pub fn render_block(b: &Block) -> (r: String)
    ensures
        r@ == block_text(*b),
{
    let parts = stmt_prefix(&b.stmts, b.stmts.len());
    assert(b.stmts@.take(b.stmts@.len() as int) =~= b.stmts@);
    render_braced(&parts)
}

pub fn render_fn_head(attrs: &Vec<Attr>, vis: &String, defaultness: bool) -> (r: String)
    ensures
        r@ == fn_head_text(attrs@, vis@, defaultness),
{
    let mut r = render_attrs(attrs);
    r.append(vis.as_str());
    r.append(" ");
    if defaultness {
        r.append("default ");
    }
    r
}

/// Writes a function out as it stands.
pub fn render_fn(f: &ImplItemFn) -> (r: String)
    ensures
        r@ == fn_text(f.attrs@, *f),
{
    let mut r = render_fn_head(&f.attrs, &f.vis, f.defaultness);
    let s = render_sig(&f.sig);
    r.append(s.as_str());
    r.append(" ");
    let b = render_block(&f.block);
    r.append(b.as_str());
    r
}

} // verus!
