//! The `EMPLACE` flag among an item's generics, and how generics are written out.
use vstd::prelude::*;
use crate::model::{GenericParam, Generics, PathArgs, TypePath};
use crate::text::{join, join_strings, text, views};

verus! {

/// The declaration of the flag that tells whether a value is built in place.
pub open spec fn emplace_decl() -> Seq<char> {
    "const EMPLACE: bool"@
}

/// The default of the flag: a value is moved unless built in place.
pub open spec fn emplace_default() -> Seq<char> {
    "false"@
}

/// The declaration of the flag with its default, as a type declares it.
pub open spec fn emplace_declared() -> Seq<char> {
    emplace_decl() + " = "@ + emplace_default()
}

/// The flag as a generic argument.
pub open spec fn emplace_arg() -> Seq<char> {
    "EMPLACE"@
}

impl GenericParam {
    /// A copy of this parameter.
    pub fn duplicate(&self) -> (r: GenericParam)
        ensures
            r == *self,
    {
        GenericParam {
            is_lifetime: self.is_lifetime,
            decl: self.decl.clone(),
            arg: self.arg.clone(),
            default: duplicate_text(&self.default),
        }
    }
}

/// A copy of an optional text.
pub fn duplicate_text(t: &Option<String>) -> (r: Option<String>)
    ensures
        r == *t,
{
    match t {
        Some(s) => Some(s.clone()),
        None => None,
    }
}

/// The flag's parameter.
pub fn emplace_param() -> (r: GenericParam)
    ensures
        !r.is_lifetime,
        r.decl@ == emplace_decl(),
        r.arg@ == emplace_arg(),
        r.default matches Some(d) && d@ == emplace_default(),
{
    GenericParam {
        is_lifetime: false,
        decl: text("const EMPLACE: bool"),
        arg: text("EMPLACE"),
        default: Some(text("false")),
    }
}

/// Add the const param to the generics: the same parameters and `where` clause,
/// followed by `const EMPLACE: bool = false`.
pub fn create_maybe_generics(generics: &Generics) -> (r: Generics)
    ensures
        r.params@.len() == generics.params@.len() + 1,
        r.params@.take(generics.params@.len() as int) == generics.params@,
        !r.params@.last().is_lifetime,
        r.params@.last().decl@ == emplace_decl(),
        r.params@.last().arg@ == emplace_arg(),
        r.params@.last().default matches Some(d) && d@ == emplace_default(),
        r.where_clause == generics.where_clause,
{
    let mut params: Vec<GenericParam> = Vec::new();
    let n = generics.params.len();
    let mut i: usize = 0;
    while i < n
        invariant
            n == generics.params@.len(),
            i <= n,
            params@ == generics.params@.take(i as int),
        decreases n - i,
    {
        assert(generics.params@.take(i + 1) =~= generics.params@.take(i as int).push(generics.params@[i as int]));
        params.push(generics.params[i].duplicate());
        i = i + 1;
    }
    assert(generics.params@.take(n as int) =~= generics.params@);
    params.push(emplace_param());
    assert(params@.take(n as int) =~= generics.params@);
    Generics { params, where_clause: duplicate_text(&generics.where_clause) }
}

/// The parameters that are lifetimes, in order.
pub open spec fn lifetime_params(ps: Seq<GenericParam>) -> Seq<GenericParam>
    decreases ps.len(),
{
    if ps.len() == 0 {
        Seq::empty()
    } else if ps.last().is_lifetime {
        lifetime_params(ps.drop_last()).push(ps.last())
    } else {
        lifetime_params(ps.drop_last())
    }
}

/// The parameters that are types or constants, in order.
pub open spec fn other_params(ps: Seq<GenericParam>) -> Seq<GenericParam>
    decreases ps.len(),
{
    if ps.len() == 0 {
        Seq::empty()
    } else if ps.last().is_lifetime {
        other_params(ps.drop_last())
    } else {
        other_params(ps.drop_last()).push(ps.last())
    }
}

/// A parameter as a type declares it: with its default, where it has one.
pub open spec fn declared(p: GenericParam) -> Seq<char> {
    p.decl@ + match p.default {
        Some(d) => " = "@ + d@,
        None => Seq::empty(),
    }
}

/// Which text of a parameter to write.
#[derive(Clone, Copy, Debug, PartialEq, Eq, Structural)]
pub enum ParamPart {
    /// As an impl declares it: without its default.
    Decl,
    /// As an argument.
    Arg,
    /// As a type declares it: with its default.
    Declared,
}

pub open spec fn part_text(p: GenericParam, which: ParamPart) -> Seq<char> {
    match which {
        ParamPart::Decl => p.decl@,
        ParamPart::Arg => p.arg@,
        ParamPart::Declared => declared(p),
    }
}

/// The declarations of the parameters with their defaults, lifetimes first.
pub open spec fn declareds(ps: Seq<GenericParam>) -> Seq<Seq<char>> {
    (lifetime_params(ps) + other_params(ps)).map_values(|p: GenericParam| declared(p))
}

/// The declarations of the parameters, lifetimes first.
pub open spec fn decls(ps: Seq<GenericParam>) -> Seq<Seq<char>> {
    (lifetime_params(ps) + other_params(ps)).map_values(|p: GenericParam| p.decl@)
}

/// The arguments of the parameters, lifetimes first.
pub open spec fn ordered_args(ps: Seq<GenericParam>) -> Seq<Seq<char>> {
    (lifetime_params(ps) + other_params(ps)).map_values(|p: GenericParam| p.arg@)
}

/// The arguments of the parameters, in the order declared.
pub open spec fn args(ps: Seq<GenericParam>) -> Seq<Seq<char>> {
    ps.map_values(|p: GenericParam| p.arg@)
}

/// A list in angle brackets, or nothing for an empty list.
pub open spec fn angled(parts: Seq<Seq<char>>) -> Seq<char> {
    if parts.len() == 0 {
        Seq::empty()
    } else {
        "<"@ + join(parts, ", "@) + ">"@
    }
}

/// The generics as they follow a declared type's name: declarations with their
/// defaults, lifetimes first.
pub open spec fn struct_generics_text(g: Generics) -> Seq<char> {
    angled(declareds(g.params@))
}

/// The generics as they follow `impl`: declarations without defaults, lifetimes first.
pub open spec fn impl_generics_text(g: Generics) -> Seq<char> {
    angled(decls(g.params@))
}

/// The generics as arguments of the type: lifetimes first.
pub open spec fn ty_generics_text(g: Generics) -> Seq<char> {
    angled(ordered_args(g.params@))
}

/// The `where` clause, or nothing.
pub open spec fn where_text(g: Generics) -> Seq<char> {
    match g.where_clause {
        Some(w) => w@,
        None => Seq::empty(),
    }
}

/// Adding a type or constant parameter at the end adds its declaration and argument
/// at the end of the lists written out.
pub proof fn lemma_push_non_lifetime(s: Seq<GenericParam>, e: GenericParam)
    requires
        !e.is_lifetime,
    ensures
        lifetime_params(s.push(e)) == lifetime_params(s),
        other_params(s.push(e)) == other_params(s).push(e),
        decls(s.push(e)) == decls(s).push(e.decl@),
        ordered_args(s.push(e)) == ordered_args(s).push(e.arg@),
        declareds(s.push(e)) == declareds(s).push(declared(e)),
{
    assert(s.push(e).drop_last() =~= s);
    assert((lifetime_params(s) + other_params(s).push(e)).map_values(|p: GenericParam| p.decl@) =~= (lifetime_params(s)
        + other_params(s)).map_values(|p: GenericParam| p.decl@).push(e.decl@));
    assert((lifetime_params(s) + other_params(s).push(e)).map_values(|p: GenericParam| p.arg@) =~= (lifetime_params(s)
        + other_params(s)).map_values(|p: GenericParam| p.arg@).push(e.arg@));
    assert((lifetime_params(s) + other_params(s).push(e)).map_values(|p: GenericParam| declared(p)) =~= (lifetime_params(s)
        + other_params(s)).map_values(|p: GenericParam| declared(p)).push(declared(e)));
}

/// Writes the asked text of a parameter.
fn render_part(p: &GenericParam, which: ParamPart) -> (r: String)
    ensures
        r@ == part_text(*p, which),
{
    match which {
        ParamPart::Decl => p.decl.clone(),
        ParamPart::Arg => p.arg.clone(),
        ParamPart::Declared => {
            let mut r = p.decl.clone();
            match &p.default {
                Some(d) => {
                    r.append(" = ");
                    r.append(d.as_str());
                },
                None => {},
            }
            r
        },
    }
}

/// Collects the asked text of each parameter, lifetimes first.
fn collect_ordered(ps: &Vec<GenericParam>, which: ParamPart) -> (r: Vec<String>)
    ensures
        views(r@) == (lifetime_params(ps@) + other_params(ps@)).map_values(|p: GenericParam| part_text(p, which)),
{
    let ghost f = |p: GenericParam| part_text(p, which);
    let mut r: Vec<String> = Vec::new();
    let n = ps.len();
    let mut pass: usize = 0;
    while pass < 2
        invariant
            n == ps@.len(),
            pass <= 2,
            f == (|p: GenericParam| part_text(p, which)),
            pass == 0 ==> views(r@) == Seq::<Seq<char>>::empty(),
            pass == 1 ==> views(r@) == lifetime_params(ps@).map_values(f),
            pass == 2 ==> views(r@) == (lifetime_params(ps@) + other_params(ps@)).map_values(f),
        decreases 2 - pass,
    {
        let ghost before = views(r@);
        let mut i: usize = 0;
        while i < n
            invariant
                n == ps@.len(),
                pass < 2,
                f == (|p: GenericParam| part_text(p, which)),
                i <= n,
                views(r@) == before + (if pass == 0 {
                    lifetime_params(ps@.take(i as int))
                } else {
                    other_params(ps@.take(i as int))
                }).map_values(f),
            decreases n - i,
        {
            assert(ps@.take(i + 1).drop_last() =~= ps@.take(i as int));
            assert(ps@.take(i + 1).last() == ps@[i as int]);
            let p = &ps[i];
            let keep = if pass == 0 { p.is_lifetime } else { !p.is_lifetime };
            let ghost sel_i = if pass == 0 {
                lifetime_params(ps@.take(i as int))
            } else {
                other_params(ps@.take(i as int))
            };
            let ghost sel_n = if pass == 0 {
                lifetime_params(ps@.take(i + 1))
            } else {
                other_params(ps@.take(i + 1))
            };
            assert(sel_n == if keep { sel_i.push(*p) } else { sel_i });
            let ghost old_r = r@;
            if keep {
                let t = render_part(p, which);
                r.push(t);
                assert(views(r@) =~= views(old_r).push(t@));
                assert(t@ == f(*p));
                assert((before + sel_i.map_values(f)).push(f(*p)) =~= before + sel_i.map_values(f).push(f(*p)));
                assert(sel_n.map_values(f) =~= sel_i.map_values(f).push(f(*p)));
                assert(views(r@) =~= before + sel_n.map_values(f));
            }
            i = i + 1;
        }
        assert(ps@.take(n as int) =~= ps@);
        if pass == 0 {
            assert(before + lifetime_params(ps@).map_values(f) =~= lifetime_params(ps@).map_values(f));
        } else {
            assert((lifetime_params(ps@) + other_params(ps@)).map_values(f) =~= lifetime_params(ps@).map_values(f) + other_params(ps@).map_values(f));
        }
        pass = pass + 1;
    }
    r
}

/// Writes a list in angle brackets, or nothing for an empty list.
fn write_angled(parts: &Vec<String>) -> (r: String)
    ensures
        r@ == angled(views(parts@)),
{
    if parts.len() == 0 {
        String::new()
    } else {
        let mut r = text("<");
        let inner = join_strings(parts, ", ");
        r.append(inner.as_str());
        r.append(">");
        r
    }
}

/// The generics as they follow `impl`.
pub fn render_impl_generics(g: &Generics) -> (r: String)
    ensures
        r@ == impl_generics_text(*g),
{
    let parts = collect_ordered(&g.params, ParamPart::Decl);
    assert(views(parts@) =~= decls(g.params@));
    write_angled(&parts)
}

/// The generics as arguments of the type.
pub fn render_ty_generics(g: &Generics) -> (r: String)
    ensures
        r@ == ty_generics_text(*g),
{
    let parts = collect_ordered(&g.params, ParamPart::Arg);
    assert(views(parts@) =~= ordered_args(g.params@));
    write_angled(&parts)
}

/// The generics as they follow a declared type's name.
pub fn render_struct_generics(g: &Generics) -> (r: String)
    ensures
        r@ == struct_generics_text(*g),
{
    let parts = collect_ordered(&g.params, ParamPart::Declared);
    assert(views(parts@) =~= declareds(g.params@));
    write_angled(&parts)
}

/// The `where` clause, or nothing.
pub fn render_where(g: &Generics) -> (r: String)
    ensures
        r@ == where_text(*g),
{
    match &g.where_clause {
        Some(w) => w.clone(),
        None => String::new(),
    }
}

/// A type path whose last segment carries the arguments of `base`'s
/// parameters, in the order declared, followed by `param`.
pub fn set_path_generics(path: &TypePath, base: &Generics, param: &str) -> (r: TypePath)
    ensures
        r.prefix == path.prefix,
        r.ident == path.ident,
        r.args matches PathArgs::Angle(v) && views(v@) == args(base.params@).push(param@),
{
    let mut v: Vec<String> = Vec::new();
    let n = base.params.len();
    let mut i: usize = 0;
    while i < n
        invariant
            n == base.params@.len(),
            i <= n,
            views(v@) == args(base.params@.take(i as int)),
        decreases n - i,
    {
        let ghost old_v = v@;
        v.push(base.params[i].arg.clone());
        assert(views(v@) =~= views(old_v).push(base.params@[i as int].arg@));
        assert(args(base.params@.take(i + 1)) =~= args(base.params@.take(i as int)).push(base.params@[i as int].arg@));
        i = i + 1;
    }
    assert(base.params@.take(n as int) =~= base.params@);
    let ghost old_v = v@;
    v.push(text(param));
    assert(views(v@) =~= views(old_v).push(param@));
    TypePath { prefix: path.prefix.clone(), ident: path.ident.clone(), args: PathArgs::Angle(v) }
}

} // verus!
