//! Processing an impl block that carries `#[placing]`.
use vstd::prelude::*;
use crate::attrs::{has_placing_attr, placing_status, strip_placing_attr, without_placing};
use crate::constructor::{
    boxed_struct_tail, init_text, last_boxed_struct, last_struct, moving_text,
    rewrite_moving_constructor, rewrite_placing_constructor, struct_tail, uninit_text,
};
use crate::error::{error, ErrorKind, Location, MacroError, Outcome};
use crate::fn_kind::{kind_of, FunctionKind, HeapTy};
use crate::generics::{
    angled, args, create_maybe_generics, decls, emplace_decl, impl_generics_text, lemma_push_non_lifetime,
    render_impl_generics, render_where, set_path_generics, where_text,
};
use crate::model::{Attr, Generics, ImplItem, ImplItemFn, ItemImpl, SelfType, TypePath};
use crate::render::{braced, fn_text, render_braced, render_fn, render_type_path};
use crate::text::{join, views};

verus! {

/// The output of `rewrite_fns`: the items of the impl block, written out and sorted.
pub struct ImplFns {
    /// Functions without a receiver that are not constructors.
    pub statics: Vec<String>,
    /// Functions with a receiver that are not marked `#[placing]`, builders among them.
    pub methods: Vec<String>,
    /// The `<name>_uninit` / `<name>_init` pairs of `#[placing]` constructors.
    pub emplacing_constructors: Vec<String>,
    /// Constructors without `#[placing]`, rewritten to build the inner type.
    pub non_emplacing_constructors: Vec<String>,
    /// Items that are not functions, as they stand.
    pub non_fn_items: Vec<String>,
}

/// The texts of `ImplFns`.
pub struct ImplFnsText {
    pub statics: Seq<Seq<char>>,
    pub methods: Seq<Seq<char>>,
    pub emplacing_constructors: Seq<Seq<char>>,
    pub non_emplacing_constructors: Seq<Seq<char>>,
    pub non_fn_items: Seq<Seq<char>>,
}

impl View for ImplFns {
    type V = ImplFnsText;

    open spec fn view(&self) -> ImplFnsText {
        ImplFnsText {
            statics: views(self.statics@),
            methods: views(self.methods@),
            emplacing_constructors: views(self.emplacing_constructors@),
            non_emplacing_constructors: views(self.non_emplacing_constructors@),
            non_fn_items: views(self.non_fn_items@),
        }
    }
}

/// Nothing sorted yet.
pub open spec fn no_texts() -> ImplFnsText {
    ImplFnsText {
        statics: Seq::empty(),
        methods: Seq::empty(),
        emplacing_constructors: Seq::empty(),
        non_emplacing_constructors: Seq::empty(),
        non_fn_items: Seq::empty(),
    }
}

/// Where the walk over the items of an impl block ends.
pub enum Walk {
    /// Every item was sorted and written out.
    Done(ImplFnsText),
    /// An item was refused.
    Failed(MacroError),
    /// A builder (a method returning `Self`) marked `#[placing]` was reached: not supported.
    Unsupported,
}

/// One function, its `#[placing]` marker already read (`has`) and stripped (`attrs`).
pub open spec fn fn_step(
    acc: ImplFnsText,
    f: ImplItemFn,
    attrs: Seq<Attr>,
    has: bool,
    kind: FunctionKind,
    i: usize,
    ident: Seq<char>,
) -> Walk {
    match kind {
        FunctionKind::Static => if has {
            Walk::Failed(error(ErrorKind::InvalidPlacingTarget, Location::ItemSig { item: i }))
        } else {
            Walk::Done(ImplFnsText { statics: acc.statics.push(fn_text(attrs, f)), ..acc })
        },
        FunctionKind::Method => if has {
            Walk::Failed(error(ErrorKind::InvalidPlacingTarget, Location::ItemSig { item: i }))
        } else {
            Walk::Done(ImplFnsText { methods: acc.methods.push(fn_text(attrs, f)), ..acc })
        },
        FunctionKind::Constructor(h) => if has {
            match (match h {
                HeapTy::Inline => struct_tail(f.block, i),
                HeapTy::Box => boxed_struct_tail(f.block, i),
            }) {
                Ok(s) => Walk::Done(
                    ImplFnsText {
                        emplacing_constructors: acc.emplacing_constructors.push(uninit_text(attrs, f, h)).push(
                            init_text(attrs, f, h, s),
                        ),
                        ..acc
                    },
                ),
                Err(e) => Walk::Failed(e),
            }
        } else {
            match struct_tail(f.block, i) {
                Ok(s) => Walk::Done(
                    ImplFnsText {
                        non_emplacing_constructors: acc.non_emplacing_constructors.push(
                            moving_text(attrs, f, ident, s),
                        ),
                        ..acc
                    },
                ),
                Err(e) => Walk::Failed(e),
            }
        },
        FunctionKind::Builder(_) => if has {
            Walk::Unsupported
        } else {
            Walk::Done(ImplFnsText { methods: acc.methods.push(fn_text(attrs, f)), ..acc })
        },
    }
}

/// One item of the impl block, the `i`-th.
pub open spec fn step(acc: ImplFnsText, item: ImplItem, i: usize, ident: Seq<char>) -> Walk {
    match item {
        ImplItem::Other(t) => Walk::Done(ImplFnsText { non_fn_items: acc.non_fn_items.push(t@), ..acc }),
        ImplItem::Fn(f) => match placing_status(f.attrs@) {
            Err(j) => Walk::Failed(error(ErrorKind::InvalidAttr, Location::ItemAttr { item: i, attr: j as usize })),
            Ok(has) => fn_step(
                acc,
                f,
                without_placing(f.attrs@),
                has,
                kind_of(f.sig.has_receiver, f.sig.output, ident),
                i,
                ident,
            ),
        },
    }
}

/// The items taken in order; the first refusal (or marked builder) ends the walk.
pub open spec fn walk(items: Seq<ImplItem>, ident: Seq<char>) -> Walk
    decreases items.len(),
{
    if items.len() == 0 {
        Walk::Done(no_texts())
    } else {
        match walk(items.drop_last(), ident) {
            Walk::Done(acc) => step(acc, items.last(), (items.len() - 1) as usize, ident),
            other => other,
        }
    }
}

/// A walk that stopped on a prefix stops the same way on the whole.
pub proof fn lemma_walk_stops(s: Seq<ImplItem>, k: int, ident: Seq<char>)
    requires
        0 <= k <= s.len(),
        !(walk(s.take(k), ident) is Done),
    ensures
        walk(s, ident) == walk(s.take(k), ident),
    decreases s.len() - k,
{
    if k == s.len() {
        assert(s.take(k) =~= s);
    } else {
        assert(s.take(k + 1).drop_last() =~= s.take(k));
        lemma_walk_stops(s, k + 1, ident);
    }
}

/// Process the items one by one: sort them, write out the functions that stay,
/// and rewrite the constructors.
pub fn rewrite_fns(items: Vec<ImplItem>, self_ident: &String) -> (r: Result<ImplFns, MacroError>)
    requires
        !(walk(items@, self_ident@) is Unsupported),
    ensures
        match walk(items@, self_ident@) {
            Walk::Done(t) => r matches Ok(x) && x@ == t,
            Walk::Failed(e) => r == Err::<ImplFns, MacroError>(e),
            Walk::Unsupported => false,
        },
{
    let ghost orig = items@;
    let ghost ident = self_ident@;
    let mut rest = items;
    let mut statics: Vec<String> = Vec::new();
    let mut methods: Vec<String> = Vec::new();
    let mut emplacing: Vec<String> = Vec::new();
    let mut non_emplacing: Vec<String> = Vec::new();
    let mut non_fn: Vec<String> = Vec::new();
    let n = rest.len();
    let mut i: usize = 0;
    assert(orig.take(0) =~= Seq::<ImplItem>::empty());
    assert(views(statics@) =~= Seq::<Seq<char>>::empty());
    assert(views(methods@) =~= Seq::<Seq<char>>::empty());
    assert(views(emplacing@) =~= Seq::<Seq<char>>::empty());
    assert(views(non_emplacing@) =~= Seq::<Seq<char>>::empty());
    assert(views(non_fn@) =~= Seq::<Seq<char>>::empty());
    while i < n
        invariant
            n == orig.len(),
            i <= n,
            ident == self_ident@,
            orig == items@,
            rest@ == orig.skip(i as int),
            !(walk(orig, ident) is Unsupported),
            walk(orig.take(i as int), ident) == Walk::Done(
                ImplFnsText {
                    statics: views(statics@),
                    methods: views(methods@),
                    emplacing_constructors: views(emplacing@),
                    non_emplacing_constructors: views(non_emplacing@),
                    non_fn_items: views(non_fn@),
                },
            ),
        decreases n - i,
    {
        let ghost acc = ImplFnsText {
            statics: views(statics@),
            methods: views(methods@),
            emplacing_constructors: views(emplacing@),
            non_emplacing_constructors: views(non_emplacing@),
            non_fn_items: views(non_fn@),
        };
        let item = rest.remove(0);
        proof {
            assert(item == orig[i as int]);
            assert(rest@ =~= orig.skip(i + 1));
            assert(orig.take(i + 1).drop_last() =~= orig.take(i as int));
            assert(orig.take(i + 1).last() == orig[i as int]);
            assert(walk(orig.take(i + 1), ident) == step(acc, item, i, ident));
        }
        let ghost item0 = item;
        match item {
            ImplItem::Other(t) => {
                let ghost old_v = non_fn@;
                non_fn.push(t);
                assert(views(non_fn@) =~= views(old_v).push(t@));
            },
            ImplItem::Fn(f) => {
                let ghost f0 = f;
                let ImplItemFn { attrs, vis, defaultness, sig, block } = f;
                let kind = FunctionKind::from_fn(&sig, self_ident);
                let has = match has_placing_attr(&attrs) {
                    Ok(b) => b,
                    Err(j) => {
                        proof {
                            assert(step(acc, item0, i, ident) == Walk::Failed(
                                error(ErrorKind::InvalidAttr, Location::ItemAttr { item: i, attr: j }),
                            ));
                            lemma_walk_stops(orig, i + 1, ident);
                        }
                        return Err(MacroError { kind: ErrorKind::InvalidAttr, location: Location::ItemAttr { item: i, attr: j } });
                    },
                };
                let attrs = strip_placing_attr(attrs);
                let g = ImplItemFn { attrs, vis, defaultness, sig, block };
                assert(fn_text(g.attrs@, g) == fn_text(g.attrs@, f0));
                match kind {
                    FunctionKind::Static => {
                        if has {
                            proof {
                                lemma_walk_stops(orig, i + 1, ident);
                            }
                            return Err(MacroError { kind: ErrorKind::InvalidPlacingTarget, location: Location::ItemSig { item: i } });
                        }
                        let t = render_fn(&g);
                        let ghost old_v = statics@;
                        statics.push(t);
                        assert(views(statics@) =~= views(old_v).push(t@));
                    },
                    FunctionKind::Method => {
                        if has {
                            proof {
                                lemma_walk_stops(orig, i + 1, ident);
                            }
                            return Err(MacroError { kind: ErrorKind::InvalidPlacingTarget, location: Location::ItemSig { item: i } });
                        }
                        let t = render_fn(&g);
                        let ghost old_v = methods@;
                        methods.push(t);
                        assert(views(methods@) =~= views(old_v).push(t@));
                    },
                    FunctionKind::Constructor(h) => {
                        if has {
                            let (u, ini) = match rewrite_placing_constructor(&g, h, i) {
                                Ok(p) => p,
                                Err(e) => {
                                    proof {
                                        lemma_walk_stops(orig, i + 1, ident);
                                    }
                                    return Err(e);
                                },
                            };
                            proof {
                                let s = match h {
                                    HeapTy::Inline => struct_tail(f0.block, i),
                                    HeapTy::Box => boxed_struct_tail(f0.block, i),
                                }->Ok_0;
                                assert(uninit_text(g.attrs@, g, h) == uninit_text(g.attrs@, f0, h));
                                assert(init_text(g.attrs@, g, h, s) == init_text(g.attrs@, f0, h, s));
                            }
                            let ghost old_v = emplacing@;
                            emplacing.push(u);
                            emplacing.push(ini);
                            assert(views(emplacing@) =~= views(old_v).push(u@).push(ini@));
                        } else {
                            let t = match rewrite_moving_constructor(&g, self_ident, i) {
                                Ok(t) => t,
                                Err(e) => {
                                    proof {
                                        lemma_walk_stops(orig, i + 1, ident);
                                    }
                                    return Err(e);
                                },
                            };
                            proof {
                                let s = struct_tail(f0.block, i)->Ok_0;
                                assert(moving_text(g.attrs@, g, ident, s) == moving_text(g.attrs@, f0, ident, s));
                            }
                            let ghost old_v = non_emplacing@;
                            non_emplacing.push(t);
                            assert(views(non_emplacing@) =~= views(old_v).push(t@));
                        }
                    },
                    FunctionKind::Builder(_) => {
                        if has {
                            // not reachable: `walk` would be `Unsupported`
                            proof {
                                lemma_walk_stops(orig, i + 1, ident);
                            }
                            assert(false);
                        }
                        let t = render_fn(&g);
                        let ghost old_v = methods@;
                        methods.push(t);
                        assert(views(methods@) =~= views(old_v).push(t@));
                    },
                }
            },
        }
        i = i + 1;
    }
    assert(orig.take(n as int) =~= orig);
    Ok(ImplFns {
        statics,
        methods,
        emplacing_constructors: emplacing,
        non_emplacing_constructors: non_emplacing,
        non_fn_items: non_fn,
    })
}

} // verus!

verus! {

/// The header of a generated impl block, up to its opening brace.
pub open spec fn impl_header(
    defaultness: bool,
    unsafety: bool,
    generics: Seq<char>,
    self_ty: Seq<char>,
    where_clause: Seq<char>,
) -> Seq<char> {
    (if defaultness {
        "default "@
    } else {
        Seq::empty()
    }) + (if unsafety {
        "unsafe "@
    } else {
        Seq::empty()
    }) + "impl"@ + generics + " "@ + self_ty + " "@ + where_clause + " "@
}

/// The impl target with the arguments of `g`'s parameters, in the order declared,
/// followed by `flag`.
pub open spec fn flagged_self_ty(p: TypePath, g: Generics, flag: Seq<char>) -> Seq<char> {
    p.prefix@ + p.ident@ + "<"@ + join(args(g.params@).push(flag), ", "@) + ">"@
}

/// The generics of the impl block with the flag added.
pub open spec fn maybe_impl_generics_text(g: Generics) -> Seq<char> {
    angled(decls(g.params@).push(emplace_decl()))
}

/// The three impl blocks: for the moved type (`false`), for the placed type (`true`),
/// and for either (`EMPLACE`).
pub open spec fn impl_blocks_text(
    defaultness: bool,
    unsafety: bool,
    g: Generics,
    p: TypePath,
    t: ImplFnsText,
) -> Seq<char> {
    impl_header(defaultness, unsafety, impl_generics_text(g), flagged_self_ty(p, g, "false"@), where_text(g))
        + braced(t.non_emplacing_constructors + t.non_fn_items + t.statics) + " "@
        + impl_header(defaultness, unsafety, impl_generics_text(g), flagged_self_ty(p, g, "true"@), where_text(g))
        + braced(t.emplacing_constructors) + " "@
        + impl_header(defaultness, unsafety, maybe_impl_generics_text(g), flagged_self_ty(p, g, "EMPLACE"@), where_text(g))
        + braced(t.methods)
}

/// What the expansion of an impl block comes to.
pub open spec fn impl_outcome(item: ItemImpl) -> Outcome {
    if item.is_trait {
        Outcome::Refused(error(ErrorKind::TraitImpl, Location::CallSite))
    } else {
        match item.self_ty {
            SelfType::Other => Outcome::Refused(error(ErrorKind::InvalidImplTarget, Location::ImplToken)),
            SelfType::Path(p) => match walk(item.items@, p.ident@) {
                Walk::Done(t) => Outcome::Code(
                    impl_blocks_text(item.defaultness, item.unsafety, item.generics, p, t),
                ),
                Walk::Failed(e) => Outcome::Refused(e),
                Walk::Unsupported => Outcome::Unsupported,
            },
        }
    }
}

/// Whether walking the items of an impl block for `self_ident` stays clear of builders
/// marked `#[placing]`.
fn walk_is_supported(items: &Vec<ImplItem>, self_ident: &String) -> (r: bool)
    ensures
        r == !(walk(items@, self_ident@) is Unsupported),
{
    let n = items.len();
    let mut i: usize = 0;
    assert(items@.take(0) =~= Seq::<ImplItem>::empty());
    while i < n
        invariant
            n == items@.len(),
            i <= n,
            walk(items@.take(i as int), self_ident@) is Done,
        decreases n - i,
    {
        proof {
            assert(items@.take(i + 1).drop_last() =~= items@.take(i as int));
            assert(items@.take(i + 1).last() == items@[i as int]);
        }
        let ghost acc = walk(items@.take(i as int), self_ident@)->Done_0;
        assert(walk(items@.take(i + 1), self_ident@) == step(acc, items@[i as int], i, self_ident@));
        match &items[i] {
            ImplItem::Other(_) => {},
            ImplItem::Fn(f) => {
                let has = match has_placing_attr(&f.attrs) {
                    Ok(b) => b,
                    Err(_) => {
                        proof {
                            lemma_walk_stops(items@, i + 1, self_ident@);
                        }
                        return true;
                    },
                };
                let stops = match FunctionKind::from_fn(&f.sig, self_ident) {
                    FunctionKind::Static | FunctionKind::Method => has,
                    FunctionKind::Constructor(h) => {
                        if has {
                            match h {
                                HeapTy::Inline => last_struct(&f.block, i).is_err(),
                                HeapTy::Box => last_boxed_struct(&f.block, i).is_err(),
                            }
                        } else {
                            last_struct(&f.block, i).is_err()
                        }
                    },
                    FunctionKind::Builder(_) => {
                        if has {
                            proof {
                                lemma_walk_stops(items@, i + 1, self_ident@);
                            }
                            return false;
                        }
                        false
                    },
                };
                if stops {
                    proof {
                        lemma_walk_stops(items@, i + 1, self_ident@);
                    }
                    return true;
                }
            },
        }
        i = i + 1;
    }
    assert(items@.take(n as int) =~= items@);
    true
}

/// Whether the expansion of an impl block stays clear of builders marked `#[placing]`, which it
/// does not support yet.
pub fn impl_is_supported(item: &ItemImpl) -> (r: bool)
    ensures
        r == !(impl_outcome(*item) is Unsupported),
{
    if item.is_trait {
        return true;
    }
    match &item.self_ty {
        SelfType::Other => true,
        SelfType::Path(p) => walk_is_supported(&item.items, &p.ident),
    }
}

/// Writes the header of a generated impl block.
fn render_impl_header(
    defaultness: bool,
    unsafety: bool,
    generics: &String,
    self_ty: &String,
    where_clause: &String,
) -> (r: String)
    ensures
        r@ == impl_header(defaultness, unsafety, generics@, self_ty@, where_clause@),
{
    let mut r = String::new();
    if defaultness {
        r.append("default ");
    }
    if unsafety {
        r.append("unsafe ");
    }
    r.append("impl");
    r.append(generics.as_str());
    r.append(" ");
    r.append(self_ty.as_str());
    r.append(" ");
    r.append(where_clause.as_str());
    r.append(" ");
    r
}

/// Appends the strings of `b` to `a`.
fn append_all(a: &mut Vec<String>, b: Vec<String>)
    ensures
        views(final(a)@) == views(old(a)@) + views(b@),
{
    let mut b = b;
    let ghost b0 = b@;
    let ghost a0 = a@;
    let n = b.len();
    let mut i: usize = 0;
    while i < n
        invariant
            n == b0.len(),
            i <= n,
            b@ == b0.skip(i as int),
            views(a@) == views(a0) + views(b0.take(i as int)),
        decreases n - i,
    {
        let ghost old_a = a@;
        let x = b.remove(0);
        assert(x == b0[i as int]);
        assert(b@ =~= b0.skip(i + 1));
        a.push(x);
        assert(views(a@) =~= views(old_a).push(x@));
        assert(views(b0.take(i + 1)) =~= views(b0.take(i as int)).push(x@));
        i = i + 1;
    }
    assert(b0.take(n as int) =~= b0);
}

/// Writes the header of the impl block for `self_ty` with `flag` as the last argument.
fn render_flagged_header(
    defaultness: bool,
    unsafety: bool,
    generics_text: &String,
    self_ty: &TypePath,
    g: &Generics,
    flag: &str,
) -> (r: String)
    ensures
        r@ == impl_header(defaultness, unsafety, generics_text@, flagged_self_ty(*self_ty, *g, flag@), where_text(*g)),
{
    let flagged = set_path_generics(self_ty, g, flag);
    let t = render_type_path(&flagged);
    let where_clause = render_where(g);
    render_impl_header(defaultness, unsafety, generics_text, &t, &where_clause)
}

/// Writes the three impl blocks.
fn render_impl_blocks(defaultness: bool, unsafety: bool, g: &Generics, self_ty: &TypePath, fns: ImplFns) -> (r: String)
    ensures
        r@ == impl_blocks_text(defaultness, unsafety, *g, *self_ty, fns@),
{
    let ghost t = fns@;
    let impl_generics = render_impl_generics(g);
    let maybe_generics = create_maybe_generics(g);
    let impl_generics_maybe = render_impl_generics(&maybe_generics);
    proof {
        lemma_push_non_lifetime(g.params@, maybe_generics.params@.last());
        assert(maybe_generics.params@ =~= g.params@.push(maybe_generics.params@.last()));
    }
    let ImplFns { statics, methods, emplacing_constructors, non_emplacing_constructors, non_fn_items } = fns;
    let mut first = non_emplacing_constructors;
    append_all(&mut first, non_fn_items);
    append_all(&mut first, statics);

    let mut r = render_flagged_header(defaultness, unsafety, &impl_generics, self_ty, g, "false");
    let b = render_braced(&first);
    r.append(b.as_str());
    r.append(" ");
    let h = render_flagged_header(defaultness, unsafety, &impl_generics, self_ty, g, "true");
    r.append(h.as_str());
    let b = render_braced(&emplacing_constructors);
    r.append(b.as_str());
    r.append(" ");
    let h = render_flagged_header(defaultness, unsafety, &impl_generics_maybe, self_ty, g, "EMPLACE");
    r.append(h.as_str());
    let b = render_braced(&methods);
    r.append(b.as_str());
    r
}

/// Process an impl block that carries the `#[placing]` notation: refuse trait
/// impls and non-path targets, then write out three impl blocks, for the type
/// moved (`false`), placed (`true`), and either (`EMPLACE`).
pub fn process_impl(item: ItemImpl) -> (r: Result<String, MacroError>)
    requires
        !(impl_outcome(item) is Unsupported),
    ensures
        match impl_outcome(item) {
            Outcome::Code(c) => r matches Ok(t) && t@ == c,
            Outcome::Refused(e) => r == Err::<String, MacroError>(e),
            Outcome::Unsupported => false,
        },
{
    if item.is_trait {
        return Err(MacroError { kind: ErrorKind::TraitImpl, location: Location::CallSite });
    }
    let ItemImpl { defaultness, unsafety, generics, is_trait: _, self_ty, items } = item;
    // Validate we're processing an impl we know how to handle
    let self_ty = match self_ty {
        SelfType::Path(p) => p,
        SelfType::Other => {
            return Err(MacroError { kind: ErrorKind::InvalidImplTarget, location: Location::ImplToken });
        },
    };
    let fns = match rewrite_fns(items, &self_ty.ident) {
        Ok(fns) => fns,
        Err(e) => return Err(e),
    };
    Ok(render_impl_blocks(defaultness, unsafety, &generics, &self_ty, fns))
}

} // verus!
