//! Properties of the expansion as a whole.
use vstd::prelude::*;
use crate::attrs::{is_placing, placing_status, without_placing};
use crate::constructor::{
    boxed_struct_tail, extra_inputs_text, init_block_text, init_name, init_text, moved_tail_text, moving_text,
    struct_tail, tail_semi, uninit_text, write_text,
};
use crate::error::{MacroError, Outcome};
use crate::fn_kind::{kind_of, FunctionKind, HeapTy};
use crate::generics::{impl_generics_text, where_text};
use crate::inherent::{flagged_self_ty, impl_blocks_text, impl_header, impl_outcome, maybe_impl_generics_text, step, walk, ImplFnsText};
use crate::model::{Attr, ExprStruct, Field, FieldValue, Generics, ImplItem, ImplItemFn, ItemImpl, ItemStruct};
use crate::render::{braced, fn_head_text, fn_text, sig_text, stmt_texts};
use crate::text::{
    concat, join, lemma_occurs_around, lemma_occurs_empty, lemma_occurs_in_concat, lemma_occurs_in_join,
    lemma_occurs_self, lemma_occurs_trans, occurs_in,
};
use crate::strukt::{
    deref_body, deref_mut_body, drop_body, fields_check, maybe_args_text, maybe_decl_text, maybe_struct_decl_text,
    new_fields_text, struct_outcome, trait_impl_text,
};

verus! {

/// A list without a `#[placing]` marker reads `Ok(false)`, and back.
pub proof fn lemma_status_false_iff_unmarked(attrs: Seq<Attr>)
    ensures
        placing_status(attrs) == Ok::<bool, int>(false) <==> forall|i: int|
            0 <= i < attrs.len() ==> !is_placing(#[trigger] attrs[i]),
    decreases attrs.len(),
{
    if attrs.len() > 0 {
        lemma_status_false_iff_unmarked(attrs.drop_first());
        if placing_status(attrs) == Ok::<bool, int>(false) {
            assert forall|i: int| 0 <= i < attrs.len() implies !is_placing(#[trigger] attrs[i]) by {
                if i > 0 {
                    assert(attrs[i] == attrs.drop_first()[i - 1]);
                }
            }
        }
        if forall|i: int| 0 <= i < attrs.len() ==> !is_placing(#[trigger] attrs[i]) {
            assert forall|i: int| 0 <= i < attrs.drop_first().len() implies !is_placing(
                #[trigger] attrs.drop_first()[i],
            ) by {
                assert(attrs.drop_first()[i] == attrs[i + 1]);
            }
        }
    }
}

/// Stripping leaves a list without markers unchanged.
pub proof fn lemma_strip_unmarked(attrs: Seq<Attr>)
    requires
        forall|i: int| 0 <= i < attrs.len() ==> !is_placing(#[trigger] attrs[i]),
    ensures
        without_placing(attrs) == attrs,
    decreases attrs.len(),
{
    if attrs.len() > 0 {
        assert forall|i: int| 0 <= i < attrs.drop_last().len() implies !is_placing(#[trigger] attrs.drop_last()[i]) by {
            assert(attrs.drop_last()[i] == attrs[i]);
        }
        lemma_strip_unmarked(attrs.drop_last());
        assert(!is_placing(attrs[attrs.len() - 1]));
        assert(attrs.drop_last().push(attrs.last()) =~= attrs);
    }
}

/// Stripping removes every `#[placing]` marker and keeps every other attribute.
pub proof fn lemma_strip_removes_markers(attrs: Seq<Attr>)
    ensures
        forall|i: int|
            0 <= i < without_placing(attrs).len() ==> !is_placing(#[trigger] without_placing(attrs)[i]),
        forall|a: Attr| #[trigger] attrs.contains(a) && !is_placing(a) ==> without_placing(attrs).contains(a),
    decreases attrs.len(),
{
    if attrs.len() > 0 {
        let init = attrs.drop_last();
        lemma_strip_removes_markers(init);
        let w = without_placing(init);
        if !is_placing(attrs.last()) {
            assert forall|i: int| 0 <= i < w.push(attrs.last()).len() implies !is_placing(
                #[trigger] w.push(attrs.last())[i],
            ) by {
                if i < w.len() {
                    assert(w.push(attrs.last())[i] == w[i]);
                }
            }
        }
        assert forall|a: Attr| #[trigger] attrs.contains(a) && !is_placing(a) implies without_placing(attrs).contains(a) by {
            let k = choose|k: int| 0 <= k < attrs.len() && attrs[k] == a;
            if k < attrs.len() - 1 {
                assert(init[k] == a);
                assert(init.contains(a));
                let m = choose|m: int| 0 <= m < w.len() && w[m] == a;
                if !is_placing(attrs.last()) {
                    assert(w.push(attrs.last())[m] == a);
                }
            } else {
                assert(w.push(attrs.last())[w.len() as int] == a);
            }
        }
    }
}

/// Law: stripping the `#[placing]` markers is idempotent, and what it leaves
/// carries no marker.
pub proof fn law_strip_idempotent(attrs: Seq<Attr>)
    ensures
        without_placing(without_placing(attrs)) == without_placing(attrs),
        placing_status(without_placing(attrs)) == Ok::<bool, int>(false),
{
    lemma_strip_removes_markers(attrs);
    lemma_strip_unmarked(without_placing(attrs));
    lemma_status_false_iff_unmarked(without_placing(attrs));
}

/// How many items of the impl block the sorted texts stand for: a placing
/// constructor stands for its two functions.
pub open spec fn items_counted(t: ImplFnsText) -> int {
    (t.statics.len() + t.methods.len() + t.non_emplacing_constructors.len() + t.non_fn_items.len()
        + t.emplacing_constructors.len() / 2) as int
}

/// Law: when the items of an impl block are all accepted, each of them is written
/// out exactly once: one text per item, two (`_uninit`, `_init`) per placing constructor.
pub proof fn law_every_item_accounted(items: Seq<ImplItem>, ident: Seq<char>)
    requires
        walk(items, ident) is Done,
    ensures
        items_counted(walk(items, ident)->Done_0) == items.len(),
        walk(items, ident)->Done_0.emplacing_constructors.len() % 2 == 0,
    decreases items.len(),
{
    if items.len() > 0 {
        law_every_item_accounted(items.drop_last(), ident);
    }
}

/// Law: a function of an impl block that is neither marked `#[placing]` nor a
/// constructor (a getter, a builder or any other method, or a static function) is
/// written out as it stands, among the methods (with a receiver) or the statics.
pub proof fn law_plain_fn_passes_through(items: Seq<ImplItem>, ident: Seq<char>, k: int)
    requires
        walk(items, ident) is Done,
        0 <= k < items.len(),
        items[k] matches ImplItem::Fn(f) && placing_status(f.attrs@) == Ok::<bool, int>(false),
        items[k] matches ImplItem::Fn(f) && !(kind_of(f.sig.has_receiver, f.sig.output, ident) is Constructor),
    ensures
        items[k] matches ImplItem::Fn(f) && if f.sig.has_receiver {
            walk(items, ident)->Done_0.methods.contains(fn_text(f.attrs@, f))
        } else {
            walk(items, ident)->Done_0.statics.contains(fn_text(f.attrs@, f))
        },
    decreases items.len(),
{
    let f = items[k]->Fn_0;
    let init = items.drop_last();
    let acc = walk(init, ident)->Done_0;
    let t = walk(items, ident)->Done_0;
    if k == items.len() - 1 {
        lemma_status_false_iff_unmarked(f.attrs@);
        lemma_strip_unmarked(f.attrs@);
        if f.sig.has_receiver {
            assert(t.methods[t.methods.len() - 1] == fn_text(f.attrs@, f));
        } else {
            assert(t.statics[t.statics.len() - 1] == fn_text(f.attrs@, f));
        }
    } else {
        assert(init[k] == items[k]);
        law_plain_fn_passes_through(init, ident, k);
        if f.sig.has_receiver {
            let m = choose|m: int| 0 <= m < acc.methods.len() && acc.methods[m] == fn_text(f.attrs@, f);
            assert(t.methods.len() >= acc.methods.len());
            assert(t.methods[m] == acc.methods[m]);
        } else {
            let m = choose|m: int| 0 <= m < acc.statics.len() && acc.statics[m] == fn_text(f.attrs@, f);
            assert(t.statics.len() >= acc.statics.len());
            assert(t.statics[m] == acc.statics[m]);
        }
    }
}

/// The struct expression a constructor of kind `h` ends in (or why not).
pub open spec fn tail_of(f: ImplItemFn, h: HeapTy, i: usize) -> Result<ExprStruct, MacroError> {
    match h {
        HeapTy::Inline => struct_tail(f.block, i),
        HeapTy::Box => boxed_struct_tail(f.block, i),
    }
}

/// Law: when the items of an impl block are all accepted, each constructor marked
/// `#[placing]` (returning `Self` or `Box<Self>`) is split into the function that
/// makes the place and the function that fills it, both among the items of the
/// block for the placed type.
pub proof fn law_placing_constructor_splits(items: Seq<ImplItem>, ident: Seq<char>, k: int)
    requires
        walk(items, ident) is Done,
        0 <= k < items.len(),
        items[k] matches ImplItem::Fn(f) && placing_status(f.attrs@) == Ok::<bool, int>(true),
        items[k] matches ImplItem::Fn(f) && kind_of(f.sig.has_receiver, f.sig.output, ident) is Constructor,
    ensures
        items[k] matches ImplItem::Fn(f) && {
            let h = kind_of(f.sig.has_receiver, f.sig.output, ident)->Constructor_0;
            let attrs = without_placing(f.attrs@);
            &&& tail_of(f, h, k as usize) is Ok
            &&& walk(items, ident)->Done_0.emplacing_constructors.contains(uninit_text(attrs, f, h))
            &&& walk(items, ident)->Done_0.emplacing_constructors.contains(
                init_text(attrs, f, h, tail_of(f, h, k as usize)->Ok_0),
            )
        },
    decreases items.len(),
{
    let f = items[k]->Fn_0;
    let h = kind_of(f.sig.has_receiver, f.sig.output, ident)->Constructor_0;
    let attrs = without_placing(f.attrs@);
    let init = items.drop_last();
    let acc = walk(init, ident)->Done_0;
    let t = walk(items, ident)->Done_0;
    if k == items.len() - 1 {
        let n = t.emplacing_constructors.len();
        assert(t.emplacing_constructors[n - 2] == uninit_text(attrs, f, h));
        assert(t.emplacing_constructors[n - 1] == init_text(attrs, f, h, tail_of(f, h, k as usize)->Ok_0));
    } else {
        assert(init[k] == items[k]);
        law_placing_constructor_splits(init, ident, k);
        let u = uninit_text(attrs, f, h);
        let i = init_text(attrs, f, h, tail_of(f, h, k as usize)->Ok_0);
        let a = choose|a: int| 0 <= a < acc.emplacing_constructors.len() && acc.emplacing_constructors[a] == u;
        let b = choose|b: int| 0 <= b < acc.emplacing_constructors.len() && acc.emplacing_constructors[b] == i;
        assert(t.emplacing_constructors.len() >= acc.emplacing_constructors.len());
        assert(t.emplacing_constructors[a] == acc.emplacing_constructors[a]);
        assert(t.emplacing_constructors[b] == acc.emplacing_constructors[b]);
    }
}

/// Whether an impl item takes no part in placing: not a function, or a function
/// without `#[placing]` that is not a constructor.
pub open spec fn is_plain_item(item: ImplItem, ident: Seq<char>) -> bool {
    match item {
        ImplItem::Other(_) => true,
        ImplItem::Fn(f) => placing_status(f.attrs@) == Ok::<bool, int>(false) && !(kind_of(
            f.sig.has_receiver,
            f.sig.output,
            ident,
        ) is Constructor),
    }
}

proof fn lemma_plain_walk(items: Seq<ImplItem>, ident: Seq<char>)
    requires
        forall|k: int| 0 <= k < items.len() ==> is_plain_item(#[trigger] items[k], ident),
    ensures
        walk(items, ident) is Done,
    decreases items.len(),
{
    if items.len() > 0 {
        assert forall|k: int| 0 <= k < items.drop_last().len() implies is_plain_item(
            #[trigger] items.drop_last()[k],
            ident,
        ) by {
            assert(items.drop_last()[k] == items[k]);
        }
        lemma_plain_walk(items.drop_last(), ident);
        assert(is_plain_item(items[items.len() - 1], ident));
    }
}

/// Law: an inherent impl block on a path type whose items take no part in
/// placing is always expanded, never refused.
pub proof fn law_plain_impl_expands(item: ItemImpl)
    requires
        !item.is_trait,
        item.self_ty is Path,
        forall|k: int|
            0 <= k < item.items@.len() ==> is_plain_item(#[trigger] item.items@[k], item.self_ty->Path_0.ident@),
    ensures
        impl_outcome(item) is Code,
{
    lemma_plain_walk(item.items@, item.self_ty->Path_0.ident@);
}

proof fn lemma_plain_fields(fs: Seq<Field>)
    requires
        forall|j: int| 0 <= j < fs.len() ==> placing_status((#[trigger] fs[j]).attrs@) == Ok::<bool, int>(false),
    ensures
        fields_check(fs) is Pass,
    decreases fs.len(),
{
    if fs.len() > 0 {
        assert forall|j: int| 0 <= j < fs.drop_last().len() implies placing_status(
            (#[trigger] fs.drop_last()[j]).attrs@,
        ) == Ok::<bool, int>(false) by {
            assert(fs.drop_last()[j] == fs[j]);
        }
        lemma_plain_fields(fs.drop_last());
        assert(placing_status(fs[fs.len() - 1].attrs@) == Ok::<bool, int>(false));
    }
}

/// Law: a struct none of whose fields is marked `#[placing]` is always expanded.
pub proof fn law_plain_struct_expands(s: ItemStruct)
    requires
        forall|j: int|
            0 <= j < s.fields.fields@.len() ==> placing_status((#[trigger] s.fields.fields@[j]).attrs@) == Ok::<
                bool,
                int,
            >(false),
    ensures
        struct_outcome(s) is Code,
{
    lemma_plain_fields(s.fields.fields@);
}

} // verus!

verus! {

/// The write of a field into the place by value.
pub open spec fn by_value_write(fv: FieldValue) -> Seq<char> {
    "{ unsafe { (&raw mut (*_this)."@ + fv.member@ + ").write("@ + fv.expr@ + ") }; } "@
}

/// In `braced(ps.push(w))`, the parts `ps` joined occur, and so does `w`.
proof fn lemma_braced_push(ps: Seq<Seq<char>>, w: Seq<char>)
    ensures
        occurs_in(join(ps, " "@), braced(ps.push(w))),
        occurs_in(w, braced(ps.push(w))),
{
    let all = ps.push(w);
    assert(all.drop_last() =~= ps);
    assert(all[ps.len() as int] == w);
    lemma_occurs_in_join(all, " "@, ps.len() as int);
    lemma_occurs_around(w, join(all, " "@), "{ "@, " }"@);
    if ps.len() == 0 {
        lemma_occurs_empty(braced(all));
        assert(join(ps, " "@) =~= Seq::<char>::empty());
    } else {
        assert(join(all, " "@) == join(ps, " "@) + " "@ + w);
        lemma_occurs_self(join(ps, " "@));
        lemma_occurs_around(join(ps, " "@), join(ps, " "@), Seq::empty(), " "@ + w);
        assert(join(ps, " "@) + (" "@ + w) =~= join(all, " "@));
        lemma_occurs_around(join(ps, " "@), join(all, " "@), "{ "@, " }"@);
    }
}

/// Law: the function that fills the place of a `#[placing]` constructor, in place
/// or on the heap, keeps every statement of the constructor before its closing
/// expression, in order; and each field given without `#[placing]` is written by
/// value, whatever its expression is.
pub proof fn law_placing_init_keeps_body(attrs: Seq<Attr>, f: ImplItemFn, h: HeapTy, k: usize)
    requires
        tail_of(f, h, k) is Ok,
    ensures
        occurs_in(join(stmt_texts(f.block.stmts@.drop_last()), " "@), init_text(attrs, f, h, tail_of(f, h, k)->Ok_0)),
        forall|j: int|
            0 <= j < tail_of(f, h, k)->Ok_0.fields@.len() && placing_status(
                (#[trigger] tail_of(f, h, k)->Ok_0.fields@[j]).attrs@,
            ) == Ok::<bool, int>(false) ==> occurs_in(
                by_value_write(tail_of(f, h, k)->Ok_0.fields@[j]),
                init_text(attrs, f, h, tail_of(f, h, k)->Ok_0),
            ),
{
    let s = tail_of(f, h, k)->Ok_0;
    let ps = stmt_texts(f.block.stmts@.drop_last());
    let w = init_block_text(s);
    let t = init_text(attrs, f, h, s);
    let head = fn_head_text(attrs, f.vis@, f.defaultness) + "unsafe fn "@ + init_name(f.sig.ident@, h) + f.sig.generics@
        + "(&mut self"@ + extra_inputs_text(f.sig.inputs@) + ") "@ + f.sig.where_clause@ + " "@;
    assert(t == head + braced(ps.push(w)));
    lemma_braced_push(ps, w);
    lemma_occurs_around(join(ps, " "@), braced(ps.push(w)), head, Seq::empty());
    lemma_occurs_around(w, braced(ps.push(w)), head, Seq::empty());
    assert forall|j: int|
        0 <= j < s.fields@.len() && placing_status((#[trigger] s.fields@[j]).attrs@) == Ok::<bool, int>(false) implies occurs_in(
        by_value_write(s.fields@[j]),
        t,
    ) by {
        let writes = s.fields@.map_values(|fv: FieldValue| write_text(fv));
        assert(writes[j] == write_text(s.fields@[j]));
        assert(write_text(s.fields@[j]) == by_value_write(s.fields@[j]));
        lemma_occurs_in_concat(writes, j);
        lemma_occurs_around(writes[j], concat(writes), "{ let _this = self.inner.as_mut_ptr(); "@, "}"@);
        lemma_occurs_trans(writes[j], w, t);
    }
}

/// Law: rewriting a constructor without `#[placing]` keeps every statement before
/// its closing struct expression, in order.
pub proof fn law_moving_keeps_body(attrs: Seq<Attr>, f: ImplItemFn, ident: Seq<char>, s: ExprStruct)
    ensures
        occurs_in(join(stmt_texts(f.block.stmts@.drop_last()), " "@), moving_text(attrs, f, ident, s)),
{
    let ps = stmt_texts(f.block.stmts@.drop_last());
    let w = moved_tail_text(ident, s, tail_semi(f.block));
    let head = fn_head_text(attrs, f.vis@, f.defaultness) + sig_text(f.sig) + " "@;
    assert(moving_text(attrs, f, ident, s) == head + braced(ps.push(w)));
    lemma_braced_push(ps, w);
    lemma_occurs_around(join(ps, " "@), braced(ps.push(w)), head, Seq::empty());
}

} // verus!

verus! {

/// The header of an impl of a trait for a placing struct's outer type: the
/// generics with the flag, the type with its arguments, and its `where` clause.
pub open spec fn outer_impl_header(g: Generics, trait_for: Seq<char>, ident: Seq<char>) -> Seq<char> {
    "impl"@ + maybe_decl_text(g) + trait_for + ident + maybe_args_text(g) + " "@ + where_text(g)
}

proof fn lemma_header_in_impl(mi: Seq<char>, trait_for: Seq<char>, ident: Seq<char>, mt: Seq<char>, w: Seq<char>, body: Seq<char>)
    ensures
        occurs_in("impl"@ + mi + trait_for + ident + mt + " "@ + w, trait_impl_text(mi, trait_for, ident, mt, w, body)),
{
    let h = "impl"@ + mi + trait_for + ident + mt + " "@ + w;
    lemma_occurs_self(h);
    lemma_occurs_around(h, h, Seq::empty(), body);
}

/// Law: each impl the expansion of a struct writes (`Deref`, `DerefMut`, `Drop`)
/// is for the outer type with the flag and carries the struct's `where` clause.
pub proof fn law_struct_impls_carry_where(s: ItemStruct)
    requires
        struct_outcome(s) is Code,
    ensures
        occurs_in(outer_impl_header(s.generics, " ::core::ops::Deref for "@, s.ident@), struct_outcome(s)->Code_0),
        occurs_in(outer_impl_header(s.generics, " ::core::ops::DerefMut for "@, s.ident@), struct_outcome(s)->Code_0),
        occurs_in(outer_impl_header(s.generics, " Drop for "@, s.ident@), struct_outcome(s)->Code_0),
{
    let g = s.generics;
    let ms = maybe_struct_decl_text(g);
    let mi = maybe_decl_text(g);
    let mt = maybe_args_text(g);
    let w = where_text(g);
    let id = s.ident@;
    let fields = new_fields_text(s.fields);
    let c = struct_outcome(s)->Code_0;
    let a = s.vis@ + " struct "@ + id + ms + " "@ + w + " { inner: ::core::mem::MaybeUninit<Inner"@ + id + mt + "> } "@
        + "struct Inner"@ + id + ms + " "@ + w + " "@ + fields + (if s.semi {
        ";"@
    } else {
        Seq::empty()
    }) + " "@;
    let t1 = trait_impl_text(mi, " ::core::ops::Deref for "@, id, mt, w, deref_body(id, mt));
    let t2 = trait_impl_text(mi, " ::core::ops::DerefMut for "@, id, mt, w, deref_mut_body());
    let t3 = trait_impl_text(mi, " Drop for "@, id, mt, w, drop_body());
    assert(c == a + t1 + t2 + t3);
    lemma_header_in_impl(mi, " ::core::ops::Deref for "@, id, mt, w, deref_body(id, mt));
    lemma_header_in_impl(mi, " ::core::ops::DerefMut for "@, id, mt, w, deref_mut_body());
    lemma_header_in_impl(mi, " Drop for "@, id, mt, w, drop_body());
    lemma_occurs_around(outer_impl_header(g, " ::core::ops::Deref for "@, id), t1, a, t2 + t3);
    assert(a + t1 + (t2 + t3) =~= c);
    lemma_occurs_around(outer_impl_header(g, " ::core::ops::DerefMut for "@, id), t2, a + t1, t3);
    lemma_occurs_around(outer_impl_header(g, " Drop for "@, id), t3, a + t1 + t2, Seq::empty());
}

} // verus!

verus! {

/// `x` is a prefix of `y`.
pub open spec fn seq_prefix(x: Seq<Seq<char>>, y: Seq<Seq<char>>) -> bool {
    x.len() <= y.len() && forall|i: int| 0 <= i < x.len() ==> #[trigger] x[i] == y[i]
}

/// Each sorted list of `a` is a prefix of the same list of `b`.
pub open spec fn lists_prefix(a: ImplFnsText, b: ImplFnsText) -> bool {
    &&& seq_prefix(a.statics, b.statics)
    &&& seq_prefix(a.methods, b.methods)
    &&& seq_prefix(a.emplacing_constructors, b.emplacing_constructors)
    &&& seq_prefix(a.non_emplacing_constructors, b.non_emplacing_constructors)
    &&& seq_prefix(a.non_fn_items, b.non_fn_items)
}

proof fn lemma_step_grows(acc: ImplFnsText, it: ImplItem, k: usize, ident: Seq<char>)
    requires
        step(acc, it, k, ident) is Done,
    ensures
        lists_prefix(acc, step(acc, it, k, ident)->Done_0),
{
    let t = step(acc, it, k, ident)->Done_0;
    assert(seq_prefix(acc.statics, t.statics));
    assert(seq_prefix(acc.methods, t.methods));
    assert(seq_prefix(acc.non_emplacing_constructors, t.non_emplacing_constructors));
    assert(seq_prefix(acc.non_fn_items, t.non_fn_items));
    assert(seq_prefix(acc.emplacing_constructors, t.emplacing_constructors));
}

proof fn lemma_prefix_trans(a: ImplFnsText, b: ImplFnsText, c: ImplFnsText)
    requires
        lists_prefix(a, b),
        lists_prefix(b, c),
    ensures
        lists_prefix(a, c),
{
    assert forall|i: int| 0 <= i < a.statics.len() implies #[trigger] a.statics[i] == c.statics[i] by {
        assert(b.statics[i] == c.statics[i]);
    }
    assert forall|i: int| 0 <= i < a.methods.len() implies #[trigger] a.methods[i] == c.methods[i] by {
        assert(b.methods[i] == c.methods[i]);
    }
    assert forall|i: int| 0 <= i < a.emplacing_constructors.len() implies #[trigger] a.emplacing_constructors[i]
        == c.emplacing_constructors[i] by {
        assert(b.emplacing_constructors[i] == c.emplacing_constructors[i]);
    }
    assert forall|i: int| 0 <= i < a.non_emplacing_constructors.len() implies #[trigger] a.non_emplacing_constructors[i]
        == c.non_emplacing_constructors[i] by {
        assert(b.non_emplacing_constructors[i] == c.non_emplacing_constructors[i]);
    }
    assert forall|i: int| 0 <= i < a.non_fn_items.len() implies #[trigger] a.non_fn_items[i] == c.non_fn_items[i] by {
        assert(b.non_fn_items[i] == c.non_fn_items[i]);
    }
}

/// The walk over an accepted impl block is accepted on every prefix, and the
/// lists sorted so far only grow.
proof fn lemma_walk_prefix(items: Seq<ImplItem>, ident: Seq<char>, m: int)
    requires
        walk(items, ident) is Done,
        0 <= m <= items.len(),
    ensures
        walk(items.take(m), ident) is Done,
        lists_prefix(walk(items.take(m), ident)->Done_0, walk(items, ident)->Done_0),
    decreases items.len() - m,
{
    if m == items.len() {
        assert(items.take(m) =~= items);
    } else {
        lemma_walk_prefix(items, ident, m + 1);
        let pre = items.take(m + 1);
        assert(pre.drop_last() =~= items.take(m));
        assert(pre.last() == items[m]);
        let acc = walk(items.take(m), ident)->Done_0;
        assert(walk(pre, ident) == step(acc, items[m], m as usize, ident));
        lemma_step_grows(acc, items[m], m as usize, ident);
        lemma_prefix_trans(acc, walk(pre, ident)->Done_0, walk(items, ident)->Done_0);
    }
}

/// Where the `k`-th item of an accepted impl block is sorted to, in terms of the
/// item alone.
pub open spec fn sorted_into(it: ImplItem, k: int, ident: Seq<char>, t: ImplFnsText) -> bool {
    match it {
        ImplItem::Other(x) => t.non_fn_items.contains(x@),
        ImplItem::Fn(f) => {
            let kind = kind_of(f.sig.has_receiver, f.sig.output, ident);
            let attrs = without_placing(f.attrs@);
            match placing_status(f.attrs@) {
                Ok(false) => match kind {
                    FunctionKind::Static => t.statics.contains(fn_text(attrs, f)),
                    FunctionKind::Constructor(_) => struct_tail(f.block, k as usize) is Ok
                        && t.non_emplacing_constructors.contains(
                        moving_text(attrs, f, ident, struct_tail(f.block, k as usize)->Ok_0),
                    ),
                    _ => t.methods.contains(fn_text(attrs, f)),
                },
                Ok(true) => match kind {
                    FunctionKind::Constructor(h) => tail_of(f, h, k as usize) is Ok
                        && t.emplacing_constructors.contains(uninit_text(attrs, f, h))
                        && t.emplacing_constructors.contains(init_text(attrs, f, h, tail_of(f, h, k as usize)->Ok_0)),
                    _ => false,
                },
                Err(_) => false,
            }
        },
    }
}

proof fn lemma_contains_prefix(x: Seq<Seq<char>>, y: Seq<Seq<char>>, e: Seq<char>)
    requires
        seq_prefix(x, y),
        x.contains(e),
    ensures
        y.contains(e),
{
    let i = choose|i: int| 0 <= i < x.len() && x[i] == e;
    assert(y[i] == e);
}

proof fn lemma_sorted_grows(it: ImplItem, k: int, ident: Seq<char>, a: ImplFnsText, b: ImplFnsText)
    requires
        sorted_into(it, k, ident, a),
        lists_prefix(a, b),
    ensures
        sorted_into(it, k, ident, b),
{
    match it {
        ImplItem::Other(x) => lemma_contains_prefix(a.non_fn_items, b.non_fn_items, x@),
        ImplItem::Fn(f) => {
            let kind = kind_of(f.sig.has_receiver, f.sig.output, ident);
            let attrs = without_placing(f.attrs@);
            if placing_status(f.attrs@) == Ok::<bool, int>(false) {
                match kind {
                    FunctionKind::Static => lemma_contains_prefix(a.statics, b.statics, fn_text(attrs, f)),
                    FunctionKind::Constructor(_) => lemma_contains_prefix(
                        a.non_emplacing_constructors,
                        b.non_emplacing_constructors,
                        moving_text(attrs, f, ident, struct_tail(f.block, k as usize)->Ok_0),
                    ),
                    _ => lemma_contains_prefix(a.methods, b.methods, fn_text(attrs, f)),
                }
            } else if let FunctionKind::Constructor(h) = kind {
                lemma_contains_prefix(a.emplacing_constructors, b.emplacing_constructors, uninit_text(attrs, f, h));
                lemma_contains_prefix(
                    a.emplacing_constructors,
                    b.emplacing_constructors,
                    init_text(attrs, f, h, tail_of(f, h, k as usize)->Ok_0),
                );
            }
        },
    }
}

/// Every item of an accepted impl block is sorted to the list its kind asks for.
proof fn lemma_item_sorted(items: Seq<ImplItem>, ident: Seq<char>, k: int)
    requires
        walk(items, ident) is Done,
        0 <= k < items.len(),
    ensures
        sorted_into(items[k], k, ident, walk(items, ident)->Done_0),
{
    lemma_walk_prefix(items, ident, k);
    lemma_walk_prefix(items, ident, k + 1);
    let pre = items.take(k + 1);
    assert(pre.drop_last() =~= items.take(k));
    assert(pre.last() == items[k]);
    let acc = walk(items.take(k), ident)->Done_0;
    let t1 = walk(pre, ident)->Done_0;
    assert(walk(pre, ident) == step(acc, items[k], k as usize, ident));
    let it = items[k];
    match it {
        ImplItem::Other(x) => {
            assert(t1.non_fn_items[t1.non_fn_items.len() - 1] == x@);
        },
        ImplItem::Fn(f) => {
            let kind = kind_of(f.sig.has_receiver, f.sig.output, ident);
            let attrs = without_placing(f.attrs@);
            if placing_status(f.attrs@) == Ok::<bool, int>(false) {
                match kind {
                    FunctionKind::Static => {
                        assert(t1.statics[t1.statics.len() - 1] == fn_text(attrs, f));
                    },
                    FunctionKind::Constructor(_) => {
                        let n = t1.non_emplacing_constructors.len();
                        assert(t1.non_emplacing_constructors[n - 1] == moving_text(
                            attrs,
                            f,
                            ident,
                            struct_tail(f.block, k as usize)->Ok_0,
                        ));
                    },
                    _ => {
                        assert(t1.methods[t1.methods.len() - 1] == fn_text(attrs, f));
                    },
                }
            } else {
                let h = kind->Constructor_0;
                let n = t1.emplacing_constructors.len();
                assert(t1.emplacing_constructors[n - 2] == uninit_text(attrs, f, h));
                assert(t1.emplacing_constructors[n - 1] == init_text(attrs, f, h, tail_of(f, h, k as usize)->Ok_0));
            }
        },
    }
    lemma_sorted_grows(it, k, ident, t1, walk(items, ident)->Done_0);
}

/// Where the `k`-th item of an accepted impl block lands in the three blocks written
/// out: `bf` for the moved type, `bt` for the placed type, `bm` for either.
pub open spec fn lands(it: ImplItem, k: int, ident: Seq<char>, bf: Seq<char>, bt: Seq<char>, bm: Seq<char>) -> bool {
    match it {
        ImplItem::Other(x) => occurs_in(x@, bf),
        ImplItem::Fn(f) => {
            let kind = kind_of(f.sig.has_receiver, f.sig.output, ident);
            let attrs = without_placing(f.attrs@);
            match placing_status(f.attrs@) {
                Ok(false) => match kind {
                    FunctionKind::Static => occurs_in(fn_text(attrs, f), bf),
                    FunctionKind::Constructor(_) => struct_tail(f.block, k as usize) is Ok && occurs_in(
                        moving_text(attrs, f, ident, struct_tail(f.block, k as usize)->Ok_0),
                        bf,
                    ),
                    _ => occurs_in(fn_text(attrs, f), bm),
                },
                Ok(true) => match kind {
                    FunctionKind::Constructor(h) => tail_of(f, h, k as usize) is Ok && occurs_in(
                        uninit_text(attrs, f, h),
                        bt,
                    ) && occurs_in(init_text(attrs, f, h, tail_of(f, h, k as usize)->Ok_0), bt),
                    _ => false,
                },
                Err(_) => false,
            }
        },
    }
}

proof fn lemma_in_block(e: Seq<char>, l: Seq<Seq<char>>, header: Seq<char>)
    requires
        l.contains(e),
    ensures
        occurs_in(e, header + braced(l)),
{
    let i = choose|i: int| 0 <= i < l.len() && l[i] == e;
    lemma_occurs_in_join(l, " "@, i);
    lemma_occurs_around(e, join(l, " "@), "{ "@, " }"@);
    lemma_occurs_around(e, braced(l), header, Seq::empty());
}

proof fn lemma_contains_in_sum(a: Seq<Seq<char>>, b: Seq<Seq<char>>, c: Seq<Seq<char>>, e: Seq<char>)
    requires
        a.contains(e) || b.contains(e) || c.contains(e),
    ensures
        (a + b + c).contains(e),
{
    if a.contains(e) {
        let i = choose|i: int| 0 <= i < a.len() && a[i] == e;
        assert((a + b + c)[i] == e);
    } else if b.contains(e) {
        let i = choose|i: int| 0 <= i < b.len() && b[i] == e;
        assert((a + b + c)[a.len() + i] == e);
    } else {
        let i = choose|i: int| 0 <= i < c.len() && c[i] == e;
        assert((a + b + c)[a.len() + b.len() + i] == e);
    }
}

proof fn lemma_three_blocks(hf: Seq<char>, b1: Seq<char>, ht: Seq<char>, b2: Seq<char>, hm: Seq<char>, b3: Seq<char>)
    ensures
        hf + b1 + " "@ + ht + b2 + " "@ + hm + b3 == (hf + b1) + " "@ + (ht + b2) + " "@ + (hm + b3),
        (hf + b1).take(hf.len() as int) == hf,
        (ht + b2).take(ht.len() as int) == ht,
        (hm + b3).take(hm.len() as int) == hm,
{
    assert(hf + b1 + " "@ + ht + b2 + " "@ + hm + b3 =~= (hf + b1) + " "@ + (ht + b2) + " "@ + (hm + b3));
    assert((hf + b1).take(hf.len() as int) =~= hf);
    assert((ht + b2).take(ht.len() as int) =~= ht);
    assert((hm + b3).take(hm.len() as int) =~= hm);
}

/// An item sorted into the lists lands in the blocks written from them.
proof fn lemma_sorted_lands(
    it: ImplItem,
    k: int,
    ident: Seq<char>,
    t: ImplFnsText,
    hf: Seq<char>,
    ht: Seq<char>,
    hm: Seq<char>,
)
    requires
        sorted_into(it, k, ident, t),
    ensures
        lands(
            it,
            k,
            ident,
            hf + braced(t.non_emplacing_constructors + t.non_fn_items + t.statics),
            ht + braced(t.emplacing_constructors),
            hm + braced(t.methods),
        ),
{
    let first = t.non_emplacing_constructors + t.non_fn_items + t.statics;
    match it {
        ImplItem::Other(x) => {
            lemma_contains_in_sum(t.non_emplacing_constructors, t.non_fn_items, t.statics, x@);
            lemma_in_block(x@, first, hf);
        },
        ImplItem::Fn(f) => {
            let kind = kind_of(f.sig.has_receiver, f.sig.output, ident);
            let attrs = without_placing(f.attrs@);
            if placing_status(f.attrs@) == Ok::<bool, int>(false) {
                match kind {
                    FunctionKind::Static => {
                        lemma_contains_in_sum(t.non_emplacing_constructors, t.non_fn_items, t.statics, fn_text(attrs, f));
                        lemma_in_block(fn_text(attrs, f), first, hf);
                    },
                    FunctionKind::Constructor(_) => {
                        let e = moving_text(attrs, f, ident, struct_tail(f.block, k as usize)->Ok_0);
                        lemma_contains_in_sum(t.non_emplacing_constructors, t.non_fn_items, t.statics, e);
                        lemma_in_block(e, first, hf);
                    },
                    _ => {
                        lemma_in_block(fn_text(attrs, f), t.methods, hm);
                    },
                }
            } else {
                let h = kind->Constructor_0;
                lemma_in_block(uninit_text(attrs, f, h), t.emplacing_constructors, ht);
                lemma_in_block(init_text(attrs, f, h, tail_of(f, h, k as usize)->Ok_0), t.emplacing_constructors, ht);
            }
        },
    }
}

/// Law: the code for an accepted impl block is three impl blocks, for the moved
/// type (`false`), the placed type (`true`) and either (`EMPLACE`), each opening
/// with its header; and every item of the block is written out into the block its
/// kind asks for: items that are not functions, static functions and constructors
/// without `#[placing]` (rewritten) into the first; each `#[placing]`
/// constructor's pair into the second; every other method, as it stands, into the third.
pub proof fn law_accepted_items_land(item: ItemImpl) -> (blocks: (Seq<char>, Seq<char>, Seq<char>))
    requires
        impl_outcome(item) is Code,
    ensures
        impl_outcome(item)->Code_0 == blocks.0 + " "@ + blocks.1 + " "@ + blocks.2,
        item.self_ty is Path,
        ({
            let g = item.generics;
            let p = item.self_ty->Path_0;
            &&& blocks.0.take(impl_header(item.defaultness, item.unsafety, impl_generics_text(g), flagged_self_ty(p, g, "false"@), where_text(g)).len() as int)
                == impl_header(item.defaultness, item.unsafety, impl_generics_text(g), flagged_self_ty(p, g, "false"@), where_text(g))
            &&& blocks.1.take(impl_header(item.defaultness, item.unsafety, impl_generics_text(g), flagged_self_ty(p, g, "true"@), where_text(g)).len() as int)
                == impl_header(item.defaultness, item.unsafety, impl_generics_text(g), flagged_self_ty(p, g, "true"@), where_text(g))
            &&& blocks.2.take(impl_header(item.defaultness, item.unsafety, maybe_impl_generics_text(g), flagged_self_ty(p, g, "EMPLACE"@), where_text(g)).len() as int)
                == impl_header(item.defaultness, item.unsafety, maybe_impl_generics_text(g), flagged_self_ty(p, g, "EMPLACE"@), where_text(g))
        }),
        forall|k: int|
            0 <= k < item.items@.len() ==> lands(
                #[trigger] item.items@[k],
                k,
                item.self_ty->Path_0.ident@,
                blocks.0,
                blocks.1,
                blocks.2,
            ),
{
    let g = item.generics;
    let p = item.self_ty->Path_0;
    let ident = p.ident@;
    let t = walk(item.items@, ident)->Done_0;
    let hf = impl_header(item.defaultness, item.unsafety, impl_generics_text(g), flagged_self_ty(p, g, "false"@), where_text(g));
    let ht = impl_header(item.defaultness, item.unsafety, impl_generics_text(g), flagged_self_ty(p, g, "true"@), where_text(g));
    let hm = impl_header(item.defaultness, item.unsafety, maybe_impl_generics_text(g), flagged_self_ty(p, g, "EMPLACE"@), where_text(g));
    let first = t.non_emplacing_constructors + t.non_fn_items + t.statics;
    let bf = hf + braced(first);
    let bt = ht + braced(t.emplacing_constructors);
    let bm = hm + braced(t.methods);
    assert(impl_outcome(item) == Outcome::Code(impl_blocks_text(item.defaultness, item.unsafety, g, p, t)));
    lemma_three_blocks(hf, braced(first), ht, braced(t.emplacing_constructors), hm, braced(t.methods));
    assert forall|k: int| 0 <= k < item.items@.len() implies lands(#[trigger] item.items@[k], k, ident, bf, bt, bm) by {
        lemma_item_sorted(item.items@, ident, k);
        lemma_sorted_lands(item.items@[k], k, ident, t, hf, ht, hm);
    }
    (bf, bt, bm)
}

} // verus!
