//! Processing a struct that carries `#[placing]`.
use vstd::prelude::*;
use crate::attrs::{has_placing_attr, placing_status, strip_placing_attr, without_placing};
use crate::error::{error, ErrorKind, Location, MacroError, Outcome};
use crate::generics::{
    angled, create_maybe_generics, declared, declareds, decls, emplace_arg, emplace_decl, emplace_declared,
    lemma_push_non_lifetime, ordered_args, render_impl_generics, render_struct_generics, render_ty_generics, render_where, where_text,
};
use crate::model::{Field, FieldType, Fields, FieldsShape, Generics, ItemStruct, PathArgs, TypePath};
use crate::render::{attrs_text, field_text, field_texts, fields_text, render_fields};
use crate::text::{join, text, views};

verus! {

/// Where checking the fields of a struct ends.
pub enum Check {
    Pass,
    Refused(MacroError),
    /// A `#[placing]` field's type has parenthesized arguments (`Fn(..)`): not supported.
    Unsupported,
}

/// What the `j`-th field says about the expansion.
pub open spec fn field_check(f: Field, j: usize) -> Check {
    match placing_status(f.attrs@) {
        Err(a) => Check::Refused(error(ErrorKind::InvalidAttr, Location::FieldAttr { field: j, attr: a as usize })),
        Ok(false) => Check::Pass,
        Ok(true) => match f.ty {
            FieldType::Other(_) => Check::Refused(error(ErrorKind::InvalidFieldType, Location::FieldType { field: j })),
            FieldType::Path(p) => match p.args {
                PathArgs::Parenthesized(_) => Check::Unsupported,
                _ => Check::Pass,
            },
        },
    }
}

/// The fields checked in order; the first that does not pass decides.
pub open spec fn fields_check(fs: Seq<Field>) -> Check
    decreases fs.len(),
{
    if fs.len() == 0 {
        Check::Pass
    } else {
        match fields_check(fs.drop_last()) {
            Check::Pass => field_check(fs.last(), (fs.len() - 1) as usize),
            other => other,
        }
    }
}

/// The arguments of a `#[placing]` field's type once the flag is passed on.
pub open spec fn emplace_args(a: PathArgs) -> Seq<Seq<char>> {
    match a {
        PathArgs::Angle(v) => views(v@).push(emplace_arg()),
        _ => seq![emplace_arg()],
    }
}

/// How a field is rewritten: a `#[placing]` field loses the attribute and its
/// type passes the flag on as its last argument; any other field stays as it is.
pub open spec fn rewritten_field(old: Field, new: Field) -> bool {
    if placing_status(old.attrs@) == Ok::<bool, int>(true) {
        &&& new.attrs@ == without_placing(old.attrs@)
        &&& new.vis == old.vis
        &&& new.ident == old.ident
        &&& old.ty matches FieldType::Path(op)
        &&& new.ty matches FieldType::Path(np)
        &&& np.prefix == op.prefix
        &&& np.ident == op.ident
        &&& np.args matches PathArgs::Angle(v)
        &&& views(v@) == emplace_args(op.args)
    } else {
        new == old
    }
}

/// The text of a field once rewritten.
pub open spec fn new_field_text(f: Field) -> Seq<char> {
    if placing_status(f.attrs@) == Ok::<bool, int>(true) {
        let p = f.ty->Path_0;
        attrs_text(without_placing(f.attrs@)) + f.vis@ + " "@ + match f.ident {
            Some(i) => i@ + ": "@,
            None => Seq::empty(),
        } + p.prefix@ + p.ident@ + "<"@ + join(emplace_args(p.args), ", "@) + ">"@
    } else {
        field_text(f)
    }
}

/// The text of the fields once rewritten.
pub open spec fn new_fields_text(fs: Fields) -> Seq<char> {
    let parts = fs.fields@.map_values(|f: Field| new_field_text(f));
    match fs.shape {
        FieldsShape::Named => "{ "@ + join(parts, ", "@) + " }"@,
        FieldsShape::Unnamed => "("@ + join(parts, ", "@) + ")"@,
        FieldsShape::Unit => Seq::empty(),
    }
}

pub proof fn lemma_fields_check_stops(s: Seq<Field>, k: int)
    requires
        0 <= k <= s.len(),
        !(fields_check(s.take(k)) is Pass),
    ensures
        fields_check(s) == fields_check(s.take(k)),
    decreases s.len() - k,
{
    if k == s.len() {
        assert(s.take(k) =~= s);
    } else {
        assert(s.take(k + 1).drop_last() =~= s.take(k));
        lemma_fields_check_stops(s, k + 1);
    }
}

/// A field rewritten as `rewritten_field` says reads as `new_field_text` says.
pub proof fn lemma_rewritten_text(old: Field, new: Field)
    requires
        rewritten_field(old, new),
    ensures
        field_text(new) == new_field_text(old),
{
}

/// If a field has a `#[placing]` attribute, pass the generic in.
pub fn rewrite_placing_fields(fields: Fields) -> (r: Result<Fields, MacroError>)
    requires
        !(fields_check(fields.fields@) is Unsupported),
    ensures
        match fields_check(fields.fields@) {
            Check::Pass => r matches Ok(nf) && {
                &&& nf.shape == fields.shape
                &&& nf.fields@.len() == fields.fields@.len()
                &&& forall|j: int| 0 <= j < nf.fields@.len() ==> rewritten_field(fields.fields@[j], #[trigger] nf.fields@[j])
                &&& fields_text(nf) == new_fields_text(fields)
            },
            Check::Refused(e) => r == Err::<Fields, MacroError>(e),
            Check::Unsupported => false,
        },
{
    let ghost orig = fields.fields@;
    let Fields { shape, fields: fs } = fields;
    let mut rest = fs;
    let mut out: Vec<Field> = Vec::new();
    let n = rest.len();
    let mut j: usize = 0;
    assert(orig.take(0) =~= Seq::<Field>::empty());
    while j < n
        invariant
            n == orig.len(),
            orig == fields.fields@,
            j <= n,
            rest@ == orig.skip(j as int),
            !(fields_check(orig) is Unsupported),
            fields_check(orig.take(j as int)) is Pass,
            out@.len() == j,
            forall|k: int| 0 <= k < j ==> rewritten_field(orig[k], #[trigger] out@[k]),
        decreases n - j,
    {
        let f = rest.remove(0);
        proof {
            assert(f == orig[j as int]);
            assert(rest@ =~= orig.skip(j + 1));
            assert(orig.take(j + 1).drop_last() =~= orig.take(j as int));
            assert(orig.take(j + 1).last() == orig[j as int]);
            assert(fields_check(orig.take(j + 1)) == field_check(f, j));
        }
        let ghost f0 = f;
        let Field { attrs, vis, ident, ty } = f;
        let has = match has_placing_attr(&attrs) {
            Ok(b) => b,
            Err(a) => {
                proof {
                    lemma_fields_check_stops(orig, j + 1);
                }
                return Err(MacroError { kind: ErrorKind::InvalidAttr, location: Location::FieldAttr { field: j, attr: a } });
            },
        };
        if has {
            let attrs = strip_placing_attr(attrs);
            let p = match ty {
                FieldType::Path(p) => p,
                FieldType::Other(_) => {
                    proof {
                        lemma_fields_check_stops(orig, j + 1);
                    }
                    return Err(MacroError { kind: ErrorKind::InvalidFieldType, location: Location::FieldType { field: j } });
                },
            };
            let TypePath { prefix, ident: ty_ident, args } = p;
            let args = match args {
                PathArgs::Bare => {
                    let mut v: Vec<String> = Vec::new();
                    v.push(text("EMPLACE"));
                    assert(views(v@) =~= seq![emplace_arg()]);
                    PathArgs::Angle(v)
                },
                PathArgs::Angle(v) => {
                    let mut v = v;
                    let ghost old_v = v@;
                    v.push(text("EMPLACE"));
                    assert(views(v@) =~= views(old_v).push(emplace_arg()));
                    PathArgs::Angle(v)
                },
                PathArgs::Parenthesized(t) => {
                    proof {
                        lemma_fields_check_stops(orig, j + 1);
                    }
                    assert(false);
                    PathArgs::Parenthesized(t)
                },
            };
            let nf = Field { attrs, vis, ident, ty: FieldType::Path(TypePath { prefix, ident: ty_ident, args }) };
            assert(rewritten_field(f0, nf));
            out.push(nf);
        } else {
            let nf = Field { attrs, vis, ident, ty };
            assert(nf == f0);
            out.push(nf);
        }
        j = j + 1;
    }
    assert(orig.take(n as int) =~= orig);
    let nf = Fields { shape, fields: out };
    proof {
        assert forall|k: int| 0 <= k < n implies field_texts(nf.fields@)[k] == orig.map_values(
            |f: Field| new_field_text(f),
        )[k] by {
            lemma_rewritten_text(orig[k], nf.fields@[k]);
        }
        assert(field_texts(nf.fields@) =~= orig.map_values(|f: Field| new_field_text(f)));
    }
    Ok(nf)
}

} // verus!

verus! {

/// The generated code for a struct: the outer type holding the place, the inner
/// type holding the fields, and access from the one to the other.
/// `ms`, `mi`, `mt` and `w` are the generics (with the flag) as the types declare
/// them (with defaults), as the impls declare them (without), as arguments, and the
/// `where` clause.
pub open spec fn struct_text(
    vis: Seq<char>,
    ident: Seq<char>,
    ms: Seq<char>,
    mi: Seq<char>,
    mt: Seq<char>,
    w: Seq<char>,
    fields: Seq<char>,
    semi: bool,
) -> Seq<char> {
    vis + " struct "@ + ident + ms + " "@ + w + " { inner: ::core::mem::MaybeUninit<Inner"@ + ident + mt + "> } "@
        + "struct Inner"@ + ident + ms + " "@ + w + " "@ + fields + (if semi {
        ";"@
    } else {
        Seq::empty()
    }) + " "@ + trait_impl_text(mi, " ::core::ops::Deref for "@, ident, mt, w, deref_body(ident, mt))
        + trait_impl_text(mi, " ::core::ops::DerefMut for "@, ident, mt, w, deref_mut_body())
        + trait_impl_text(mi, " Drop for "@, ident, mt, w, drop_body())
}

/// An impl of a trait for the outer type: `impl<..> <trait> for Ident<..> where .. <body>`.
pub open spec fn trait_impl_text(
    mi: Seq<char>,
    trait_for: Seq<char>,
    ident: Seq<char>,
    mt: Seq<char>,
    w: Seq<char>,
    body: Seq<char>,
) -> Seq<char> {
    "impl"@ + mi + trait_for + ident + mt + " "@ + w + body
}

pub open spec fn deref_body(ident: Seq<char>, mt: Seq<char>) -> Seq<char> {
    " { type Target = Inner"@ + ident + mt + "; fn deref(&self) -> &Self::Target { unsafe { self.inner.assume_init_ref() } } } "@
}

pub open spec fn deref_mut_body() -> Seq<char> {
    " { fn deref_mut(&mut self) -> &mut Self::Target { unsafe { self.inner.assume_init_mut() } } } "@
}

pub open spec fn drop_body() -> Seq<char> {
    " { fn drop(&mut self) { unsafe { self.inner.assume_init_drop() } } }"@
}

/// The struct's generics with the flag, as the types declare them: with defaults,
/// the flag's `= false` among them.
pub open spec fn maybe_struct_decl_text(g: Generics) -> Seq<char> {
    angled(declareds(g.params@).push(emplace_declared()))
}

/// The struct's generics with the flag, as the impls declare them: without defaults.
pub open spec fn maybe_decl_text(g: Generics) -> Seq<char> {
    angled(decls(g.params@).push(emplace_decl()))
}

/// The struct's generics with the flag, as arguments.
pub open spec fn maybe_args_text(g: Generics) -> Seq<char> {
    angled(ordered_args(g.params@).push(emplace_arg()))
}

/// What the expansion of a struct comes to.
pub open spec fn struct_outcome(s: ItemStruct) -> Outcome {
    match fields_check(s.fields.fields@) {
        Check::Pass => Outcome::Code(
            struct_text(
                s.vis@,
                s.ident@,
                maybe_struct_decl_text(s.generics),
                maybe_decl_text(s.generics),
                maybe_args_text(s.generics),
                where_text(s.generics),
                new_fields_text(s.fields),
                s.semi,
            ),
        ),
        Check::Refused(e) => Outcome::Refused(e),
        Check::Unsupported => Outcome::Unsupported,
    }
}

/// Whether the expansion of a struct stays clear of `#[placing]` fields whose
/// type takes parenthesized arguments, which it does not support.
pub fn struct_is_supported(s: &ItemStruct) -> (r: bool)
    ensures
        r == !(struct_outcome(*s) is Unsupported),
{
    let fs = &s.fields.fields;
    let n = fs.len();
    let mut j: usize = 0;
    assert(fs@.take(0) =~= Seq::<Field>::empty());
    while j < n
        invariant
            n == fs@.len(),
            fs == &s.fields.fields,
            j <= n,
            fields_check(fs@.take(j as int)) is Pass,
        decreases n - j,
    {
        proof {
            assert(fs@.take(j + 1).drop_last() =~= fs@.take(j as int));
            assert(fs@.take(j + 1).last() == fs@[j as int]);
        }
        let f = &fs[j];
        let stop: Option<bool> = match has_placing_attr(&f.attrs) {
            Err(_) => Some(true),
            Ok(false) => None,
            Ok(true) => match &f.ty {
                FieldType::Other(_) => Some(true),
                FieldType::Path(p) => match &p.args {
                    PathArgs::Parenthesized(_) => Some(false),
                    _ => None,
                },
            },
        };
        match stop {
            Some(b) => {
                proof {
                    lemma_fields_check_stops(fs@, j + 1);
                }
                return b;
            },
            None => {},
        }
        j = j + 1;
    }
    assert(fs@.take(n as int) =~= fs@);
    true
}

/// Process a struct that carries the `#[placing]` notation: the struct becomes a
/// place (`inner: MaybeUninit<Inner..>`) with a flag `EMPLACE` among its generics,
/// its fields move to the inner struct, and the outer one dereferences to the inner one.
pub fn process_struct(item: ItemStruct) -> (r: Result<String, MacroError>)
    requires
        !(struct_outcome(item) is Unsupported),
    ensures
        match struct_outcome(item) {
            Outcome::Code(c) => r matches Ok(t) && t@ == c,
            Outcome::Refused(e) => r == Err::<String, MacroError>(e),
            Outcome::Unsupported => false,
        },
{
    let ItemStruct { vis, ident, generics, fields, semi } = item;
    let maybe_generics = create_maybe_generics(&generics);
    proof {
        lemma_push_non_lifetime(generics.params@, maybe_generics.params@.last());
        assert(declared(maybe_generics.params@.last()) == emplace_declared());
        assert(maybe_generics.params@ =~= generics.params@.push(maybe_generics.params@.last()));
    }
    let ms = render_struct_generics(&maybe_generics);
    let mi = render_impl_generics(&maybe_generics);
    let mt = render_ty_generics(&maybe_generics);
    let w = render_where(&maybe_generics);
    let fields = match rewrite_placing_fields(fields) {
        Ok(f) => f,
        Err(e) => return Err(e),
    };
    let body = render_fields(&fields);
    Ok(render_struct(&vis, &ident, &ms, &mi, &mt, &w, &body, semi))
}

/// Writes an impl of a trait for the outer type.
fn render_trait_impl(
    mi: &String,
    trait_for: &str,
    ident: &String,
    mt: &String,
    w: &String,
    body: &String,
) -> (r: String)
    ensures
        r@ == trait_impl_text(mi@, trait_for@, ident@, mt@, w@, body@),
{
    let mut r = text("impl");
    r.append(mi.as_str());
    r.append(trait_for);
    r.append(ident.as_str());
    r.append(mt.as_str());
    r.append(" ");
    r.append(w.as_str());
    r.append(body.as_str());
    r
}

/// Writes the generated code for a struct.
fn render_struct(
    vis: &String,
    ident: &String,
    ms: &String,
    mi: &String,
    mt: &String,
    w: &String,
    fields: &String,
    semi: bool,
) -> (r: String)
    ensures
        r@ == struct_text(vis@, ident@, ms@, mi@, mt@, w@, fields@, semi),
{
    let mut r = vis.clone();
    r.append(" struct ");
    r.append(ident.as_str());
    r.append(ms.as_str());
    r.append(" ");
    r.append(w.as_str());
    r.append(" { inner: ::core::mem::MaybeUninit<Inner");
    r.append(ident.as_str());
    r.append(mt.as_str());
    r.append("> } ");
    r.append("struct Inner");
    r.append(ident.as_str());
    r.append(ms.as_str());
    r.append(" ");
    r.append(w.as_str());
    r.append(" ");
    r.append(fields.as_str());
    if semi {
        r.append(";");
    }
    r.append(" ");
    let mut body = text(" { type Target = Inner");
    body.append(ident.as_str());
    body.append(mt.as_str());
    body.append("; fn deref(&self) -> &Self::Target { unsafe { self.inner.assume_init_ref() } } } ");
    let imp = render_trait_impl(mi, " ::core::ops::Deref for ", ident, mt, w, &body);
    r.append(imp.as_str());
    let body = text(" { fn deref_mut(&mut self) -> &mut Self::Target { unsafe { self.inner.assume_init_mut() } } } ");
    let imp = render_trait_impl(mi, " ::core::ops::DerefMut for ", ident, mt, w, &body);
    r.append(imp.as_str());
    let body = text(" { fn drop(&mut self) { unsafe { self.inner.assume_init_drop() } } }");
    let imp = render_trait_impl(mi, " Drop for ", ident, mt, w, &body);
    r.append(imp.as_str());
    r
}

} // verus!
