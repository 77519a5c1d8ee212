//! Rewriting constructors: the moving form, and the placing pair `<name>_uninit` / `<name>_init`.
use vstd::prelude::*;
use crate::attrs::{has_placing_attr, placing_status};
use crate::error::{error, ErrorKind, Location, MacroError};
use crate::fn_kind::HeapTy;
use crate::model::{Arg, Attr, Block, Expr, ExprStruct, FieldValue, ImplItemFn, StmtKind};
use crate::render::{attrs_text, render_attrs, braced, fn_head_text, render_braced, render_fn_head, render_sig, sig_text, stmt_prefix, stmt_texts};
use crate::text::{concat, join, join_strings, text, text_is, views};

verus! {

/// The struct expression a constructor ends in, or why it does not end in one.
pub open spec fn struct_tail(b: Block, item: usize) -> Result<ExprStruct, MacroError> {
    if b.stmts@.len() == 0 {
        Err(error(ErrorKind::EmptyConstructor, Location::ItemBlock { item }))
    } else {
        match b.stmts@.last().kind {
            StmtKind::Expr(Expr::Struct(s), _) => Ok(s),
            StmtKind::Expr(_, _) => Err(error(ErrorKind::InvalidConstructorBody, Location::ItemLastExpr { item })),
            StmtKind::Other => Err(error(ErrorKind::InvalidConstructorBody, Location::ItemLastStmt { item })),
        }
    }
}

/// The struct expression a heap constructor hands to `Box::new` at its end,
/// or why it does not end so.
pub open spec fn boxed_struct_tail(b: Block, item: usize) -> Result<ExprStruct, MacroError> {
    if b.stmts@.len() == 0 {
        Err(error(ErrorKind::EmptyConstructor, Location::ItemBlock { item }))
    } else {
        match b.stmts@.last().kind {
            StmtKind::Expr(Expr::Call(c), _) => match c.func_path {
                None => Err(error(ErrorKind::UnsupportedPointerBody, Location::ItemLastExpr { item })),
                Some(p) => if p@ != "Box :: new"@ {
                    Err(error(ErrorKind::InvalidPointerConstructor, Location::ItemLastExpr { item }))
                } else if c.args@.len() > 0 && c.args@[0] is Struct {
                    Ok(c.args@[0]->Struct_0)
                } else {
                    Err(error(ErrorKind::InvalidPointerArgument, Location::ItemLastExpr { item }))
                },
            },
            StmtKind::Expr(_, _) => Err(error(ErrorKind::UnsupportedPointerBody, Location::ItemLastExpr { item })),
            StmtKind::Other => Err(error(ErrorKind::UnsupportedPointerBody, Location::ItemLastStmt { item })),
        }
    }
}

/// Whether the last statement of a non-empty body ends in `;`.
pub open spec fn tail_semi(b: Block) -> bool {
    match b.stmts@.last().kind {
        StmtKind::Expr(_, semi) => semi,
        StmtKind::Other => false,
    }
}

/// A field initializer as written in a struct expression.
pub open spec fn field_value_text(fv: FieldValue) -> Seq<char> {
    attrs_text(fv.attrs@) + fv.member@ + if fv.shorthand {
        Seq::empty()
    } else {
        ": "@ + fv.expr@
    }
}

pub open spec fn field_values_text(fs: Seq<FieldValue>) -> Seq<char> {
    join(fs.map_values(|fv: FieldValue| field_value_text(fv)), ", "@)
}

/// The struct expression of a moving constructor, rebuilt around the inner type.
pub open spec fn moved_tail_text(ident: Seq<char>, s: ExprStruct, semi: bool) -> Seq<char> {
    ident + " { inner: ::core::mem::MaybeUninit::new(Inner"@ + ident + " { "@ + field_values_text(s.fields@)
        + " }) }"@ + if semi {
        ";"@
    } else {
        Seq::empty()
    }
}

/// The texts of all statements but the last.
pub open spec fn prefix_texts(b: Block) -> Seq<Seq<char>> {
    stmt_texts(b.stmts@.drop_last())
}

/// A constructor whose closing struct expression builds the outer type around the inner one.
pub open spec fn moving_text(attrs: Seq<Attr>, f: ImplItemFn, ident: Seq<char>, s: ExprStruct) -> Seq<char> {
    fn_head_text(attrs, f.vis@, f.defaultness) + sig_text(f.sig) + " "@ + braced(
        prefix_texts(f.block).push(moved_tail_text(ident, s, tail_semi(f.block))),
    )
}

/// Whether a field initializer is marked `#[placing]`: its value is built in place.
pub open spec fn is_placed_value(fv: FieldValue) -> bool {
    placing_status(fv.attrs@) != Ok::<bool, int>(false)
}

/// The write of one field into the place. A field marked `#[placing]` whose value
/// calls a constructor `Owner::name(args)` is filled in its own place by the
/// constructor's `Owner::name_init(&mut field, args)`; any other field gets its value.
pub open spec fn write_text(fv: FieldValue) -> Seq<char> {
    if is_placed_value(fv) && fv.call is Some {
        let c = fv.call->Some_0;
        "{ unsafe { "@ + c.owner@ + c.method@ + "_init(&mut (*_this)."@ + fv.member@ + extra_inputs_text(c.args@)
            + ") }; } "@
    } else {
        "{ unsafe { (&raw mut (*_this)."@ + fv.member@ + ").write("@ + fv.expr@ + ") }; } "@
    }
}

/// The block that writes every field of `s`, in order, into the place.
pub open spec fn init_block_text(s: ExprStruct) -> Seq<char> {
    "{ let _this = self.inner.as_mut_ptr(); "@ + concat(s.fields@.map_values(|fv: FieldValue| write_text(fv))) + "}"@
}

/// The name of the function that makes the place for constructor `name`:
/// `<name>_uninit`, or `placing_uninit_<name>` on the heap.
pub open spec fn uninit_name(name: Seq<char>, heap: HeapTy) -> Seq<char> {
    match heap {
        HeapTy::Inline => name + "_uninit"@,
        HeapTy::Box => "placing_uninit_"@ + name,
    }
}

/// The name of the function that fills the place for constructor `name`:
/// `<name>_init`, or `placing_init_<name>` on the heap.
pub open spec fn init_name(name: Seq<char>, heap: HeapTy) -> Seq<char> {
    match heap {
        HeapTy::Inline => name + "_init"@,
        HeapTy::Box => "placing_init_"@ + name,
    }
}

/// The function that makes the place. On the heap, the place is allocated
/// uninitialised and never built on the stack: the type's one field is a
/// `MaybeUninit`, so any contents are a valid value of it.
pub open spec fn uninit_text(attrs: Seq<Attr>, f: ImplItemFn, heap: HeapTy) -> Seq<char> {
    fn_head_text(attrs, f.vis@, f.defaultness) + "unsafe fn "@ + uninit_name(f.sig.ident@, heap) + match heap {
        HeapTy::Inline => "() -> Self { Self { inner: ::core::mem::MaybeUninit::uninit() } }"@,
        HeapTy::Box => "() -> Box<Self> { unsafe { Box::<Self>::new_uninit().assume_init() } }"@,
    }
}

/// The inputs after the receiver.
pub open spec fn extra_inputs_text(inputs: Seq<String>) -> Seq<char> {
    concat(inputs.map_values(|x: String| ", "@ + x@))
}

/// The function that fills the place, with the constructor's inputs and
/// statements, its struct expression turned into field writes.
pub open spec fn init_text(attrs: Seq<Attr>, f: ImplItemFn, heap: HeapTy, s: ExprStruct) -> Seq<char> {
    fn_head_text(attrs, f.vis@, f.defaultness) + "unsafe fn "@ + init_name(f.sig.ident@, heap) + f.sig.generics@
        + "(&mut self"@ + extra_inputs_text(f.sig.inputs@) + ") "@ + f.sig.where_clause@ + " "@
        + braced(prefix_texts(f.block).push(init_block_text(s)))
}

/// Finds the struct expression a constructor ends in.
pub fn last_struct(b: &Block, item: usize) -> (r: Result<&ExprStruct, MacroError>)
    ensures
        match r {
            Ok(s) => struct_tail(*b, item) == Ok::<ExprStruct, MacroError>(*s),
            Err(e) => struct_tail(*b, item) == Err::<ExprStruct, MacroError>(e),
        },
{
    let n = b.stmts.len();
    if n == 0 {
        return Err(MacroError { kind: ErrorKind::EmptyConstructor, location: Location::ItemBlock { item } });
    }
    match &b.stmts[n - 1].kind {
        StmtKind::Expr(Expr::Struct(s), _) => Ok(s),
        StmtKind::Expr(_, _) => Err(MacroError { kind: ErrorKind::InvalidConstructorBody, location: Location::ItemLastExpr { item } }),
        StmtKind::Other => Err(MacroError { kind: ErrorKind::InvalidConstructorBody, location: Location::ItemLastStmt { item } }),
    }
}

/// Finds the struct expression a heap constructor hands to `Box::new` at its end.
pub fn last_boxed_struct(b: &Block, item: usize) -> (r: Result<&ExprStruct, MacroError>)
    ensures
        match r {
            Ok(s) => boxed_struct_tail(*b, item) == Ok::<ExprStruct, MacroError>(*s),
            Err(e) => boxed_struct_tail(*b, item) == Err::<ExprStruct, MacroError>(e),
        },
{
    let n = b.stmts.len();
    if n == 0 {
        return Err(MacroError { kind: ErrorKind::EmptyConstructor, location: Location::ItemBlock { item } });
    }
    match &b.stmts[n - 1].kind {
        StmtKind::Expr(Expr::Call(c), _) => match &c.func_path {
            None => Err(MacroError { kind: ErrorKind::UnsupportedPointerBody, location: Location::ItemLastExpr { item } }),
            Some(p) => {
                if !text_is(p, "Box :: new") {
                    Err(MacroError { kind: ErrorKind::InvalidPointerConstructor, location: Location::ItemLastExpr { item } })
                } else if c.args.len() > 0 {
                    match &c.args[0] {
                        Arg::Struct(s) => Ok(s),
                        Arg::Other => Err(MacroError { kind: ErrorKind::InvalidPointerArgument, location: Location::ItemLastExpr { item } }),
                    }
                } else {
                    Err(MacroError { kind: ErrorKind::InvalidPointerArgument, location: Location::ItemLastExpr { item } })
                }
            },
        },
        StmtKind::Expr(_, _) => Err(MacroError { kind: ErrorKind::UnsupportedPointerBody, location: Location::ItemLastExpr { item } }),
        StmtKind::Other => Err(MacroError { kind: ErrorKind::UnsupportedPointerBody, location: Location::ItemLastStmt { item } }),
    }
}

pub fn render_field_value(fv: &FieldValue) -> (r: String)
    ensures
        r@ == field_value_text(*fv),
{
    let mut r = render_attrs(&fv.attrs);
    r.append(fv.member.as_str());
    if !fv.shorthand {
        r.append(": ");
        r.append(fv.expr.as_str());
    }
    r
}

pub fn render_field_values(fs: &Vec<FieldValue>) -> (r: String)
    ensures
        r@ == field_values_text(fs@),
{
    let mut parts: Vec<String> = Vec::new();
    let n = fs.len();
    let mut i: usize = 0;
    while i < n
        invariant
            n == fs@.len(),
            i <= n,
            views(parts@) == fs@.take(i as int).map_values(|fv: FieldValue| field_value_text(fv)),
        decreases n - i,
    {
        let ghost old_p = parts@;
        let t = render_field_value(&fs[i]);
        parts.push(t);
        assert(views(parts@) =~= views(old_p).push(t@));
        assert(fs@.take(i + 1).map_values(|fv: FieldValue| field_value_text(fv)) =~= fs@.take(i as int).map_values(
            |fv: FieldValue| field_value_text(fv),
        ).push(field_value_text(fs@[i as int])));
        i = i + 1;
    }
    assert(fs@.take(n as int) =~= fs@);
    join_strings(&parts, ", ")
}

/// The statement texts of a body but its last, as strings.
fn body_prefix(b: &Block) -> (r: Vec<String>)
    requires
        b.stmts@.len() > 0,
    ensures
        views(r@) == prefix_texts(*b),
{
    let r = stmt_prefix(&b.stmts, b.stmts.len() - 1);
    assert(b.stmts@.take(b.stmts@.len() - 1) =~= b.stmts@.drop_last());
    r
}

fn last_is_semi(b: &Block) -> (r: bool)
    requires
        b.stmts@.len() > 0,
    ensures
        r == tail_semi(*b),
{
    match &b.stmts[b.stmts.len() - 1].kind {
        StmtKind::Expr(_, semi) => *semi,
        StmtKind::Other => false,
    }
}

/// Rewrite a constructor without `#[placing]` so that its closing struct
/// expression builds the outer type `ident` around `Inner<ident>`.
pub fn rewrite_moving_constructor(f: &ImplItemFn, ident: &String, item: usize) -> (r: Result<String, MacroError>)
    ensures
        match struct_tail(f.block, item) {
            Ok(s) => r matches Ok(t) && t@ == moving_text(f.attrs@, *f, ident@, s),
            Err(e) => r == Err::<String, MacroError>(e),
        },
{
    let s = match last_struct(&f.block, item) {
        Ok(s) => s,
        Err(e) => return Err(e),
    };
    let mut tail = ident.clone();
    tail.append(" { inner: ::core::mem::MaybeUninit::new(Inner");
    tail.append(ident.as_str());
    tail.append(" { ");
    let fields = render_field_values(&s.fields);
    tail.append(fields.as_str());
    tail.append(" }) }");
    if last_is_semi(&f.block) {
        tail.append(";");
    }
    let mut stmts = body_prefix(&f.block);
    let ghost old_s = stmts@;
    stmts.push(tail);
    assert(views(stmts@) =~= views(old_s).push(tail@));
    let body = render_braced(&stmts);
    let mut r = render_fn_head(&f.attrs, &f.vis, f.defaultness);
    let sig = render_sig(&f.sig);
    r.append(sig.as_str());
    r.append(" ");
    r.append(body.as_str());
    Ok(r)
}

/// Writes one field into the place.
pub fn render_write(fv: &FieldValue) -> (r: String)
    ensures
        r@ == write_text(*fv),
{
    let placed = match has_placing_attr(&fv.attrs) {
        Ok(false) => false,
        _ => true,
    };
    match &fv.call {
        Some(c) if placed => {
            let mut r = text("{ unsafe { ");
            r.append(c.owner.as_str());
            r.append(c.method.as_str());
            r.append("_init(&mut (*_this).");
            r.append(fv.member.as_str());
            let extra = render_extra_inputs(&c.args);
            r.append(extra.as_str());
            r.append(") }; } ");
            r
        },
        _ => {
            let mut r = text("{ unsafe { (&raw mut (*_this).");
            r.append(fv.member.as_str());
            r.append(").write(");
            r.append(fv.expr.as_str());
            r.append(") }; } ");
            r
        },
    }
}

/// Convert `Self { .. }` to writes into the place, one per field, in order.
pub fn inline_new_init(s: &ExprStruct) -> (r: String)
    ensures
        r@ == init_block_text(*s),
{
    let mut r = text("{ let _this = self.inner.as_mut_ptr(); ");
    let n = s.fields.len();
    let mut i: usize = 0;
    while i < n
        invariant
            n == s.fields@.len(),
            i <= n,
            r@ == "{ let _this = self.inner.as_mut_ptr(); "@ + concat(
                s.fields@.take(i as int).map_values(|fv: FieldValue| write_text(fv)),
            ),
        decreases n - i,
    {
        let fv = &s.fields[i];
        assert(s.fields@.take(i + 1).map_values(|fv: FieldValue| write_text(fv)).drop_last() =~= s.fields@.take(
            i as int,
        ).map_values(|fv: FieldValue| write_text(fv)));
        if i == 0 {
            assert(s.fields@.take(0).map_values(|fv: FieldValue| write_text(fv)) =~= Seq::<Seq<char>>::empty());
        }
        let w = render_write(fv);
        r.append(w.as_str());
        i = i + 1;
    }
    assert(s.fields@.take(n as int) =~= s.fields@);
    r.append("}");
    r
}

/// Convert `Box::new(Self { .. })` at the end of a heap constructor to writes
/// into the place, one per field, in order.
pub fn pointer_new_init(b: &Block, item: usize) -> (r: Result<String, MacroError>)
    ensures
        match boxed_struct_tail(*b, item) {
            Ok(s) => r matches Ok(t) && t@ == init_block_text(s),
            Err(e) => r == Err::<String, MacroError>(e),
        },
{
    match last_boxed_struct(b, item) {
        Ok(s) => Ok(inline_new_init(s)),
        Err(e) => Err(e),
    }
}

/// Writes the inputs after the receiver, each preceded by `, `.
fn render_extra_inputs(inputs: &Vec<String>) -> (r: String)
    ensures
        r@ == extra_inputs_text(inputs@),
{
    let mut r = String::new();
    let n = inputs.len();
    let mut i: usize = 0;
    while i < n
        invariant
            n == inputs@.len(),
            i <= n,
            r@ == extra_inputs_text(inputs@.take(i as int)),
        decreases n - i,
    {
        assert(inputs@.take(i + 1).map_values(|x: String| ", "@ + x@).drop_last() =~= inputs@.take(
            i as int,
        ).map_values(|x: String| ", "@ + x@));
        if i == 0 {
            assert(inputs@.take(0).map_values(|x: String| ", "@ + x@) =~= Seq::<Seq<char>>::empty());
        }
        r.append(", ");
        r.append(inputs[i].as_str());
        i = i + 1;
    }
    assert(inputs@.take(n as int) =~= inputs@);
    r
}

/// Writes the name of the function that fills (`init`) or makes the place.
fn render_pair_name(name: &String, heap: HeapTy, init: bool) -> (r: String)
    ensures
        r@ == if init {
            init_name(name@, heap)
        } else {
            uninit_name(name@, heap)
        },
{
    match heap {
        HeapTy::Inline => {
            let mut r = name.clone();
            if init {
                r.append("_init");
            } else {
                r.append("_uninit");
            }
            r
        },
        HeapTy::Box => {
            let mut r = if init {
                text("placing_init_")
            } else {
                text("placing_uninit_")
            };
            r.append(name.as_str());
            r
        },
    }
}

/// Rewrite a `#[placing]` constructor into the function that makes the place
/// and the function that fills it.
pub fn rewrite_placing_constructor(f: &ImplItemFn, heap: HeapTy, item: usize) -> (r: Result<(String, String), MacroError>)
    ensures
        match (match heap {
            HeapTy::Inline => struct_tail(f.block, item),
            HeapTy::Box => boxed_struct_tail(f.block, item),
        }) {
            Ok(s) => r matches Ok((u, i)) && u@ == uninit_text(f.attrs@, *f, heap) && i@ == init_text(f.attrs@, *f, heap, s),
            Err(e) => r == Err::<(String, String), MacroError>(e),
        },
{
    let writes = match heap {
        HeapTy::Inline => match last_struct(&f.block, item) {
            Ok(s) => inline_new_init(s),
            Err(e) => return Err(e),
        },
        HeapTy::Box => match pointer_new_init(&f.block, item) {
            Ok(w) => w,
            Err(e) => return Err(e),
        },
    };
    let head = render_fn_head(&f.attrs, &f.vis, f.defaultness);

    let mut uninit = head.clone();
    uninit.append("unsafe fn ");
    let name = render_pair_name(&f.sig.ident, heap, false);
    uninit.append(name.as_str());
    match heap {
        HeapTy::Inline => uninit.append("() -> Self { Self { inner: ::core::mem::MaybeUninit::uninit() } }"),
        HeapTy::Box => uninit.append("() -> Box<Self> { unsafe { Box::<Self>::new_uninit().assume_init() } }"),
    }

    let mut init = head;
    init.append("unsafe fn ");
    let name = render_pair_name(&f.sig.ident, heap, true);
    init.append(name.as_str());
    init.append(f.sig.generics.as_str());
    init.append("(&mut self");
    let extra = render_extra_inputs(&f.sig.inputs);
    init.append(extra.as_str());
    init.append(") ");
    init.append(f.sig.where_clause.as_str());
    init.append(" ");
    let mut stmts = body_prefix(&f.block);
    let ghost old_s = stmts@;
    stmts.push(writes);
    assert(views(stmts@) =~= views(old_s).push(writes@));
    let body = render_braced(&stmts);
    init.append(body.as_str());
    Ok((uninit, init))
}

} // verus!
