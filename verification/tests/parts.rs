use placing::attrs::{has_placing_attr, strip_placing_attr};
use placing::constructor::{inline_new_init, rewrite_moving_constructor, rewrite_placing_constructor};
use placing::error::{ErrorKind, Location, MacroError};
use placing::fn_kind::{FunctionKind, HeapTy};
use placing::generics::{
    create_maybe_generics, render_impl_generics, render_struct_generics, render_ty_generics, render_where, set_path_generics,
};
use placing::inherent::rewrite_fns;
use placing::model::{
    Attr, Block, Expr, ExprStruct, Field, FieldType, FieldValue, Fields, FieldsShape, GenericParam, Generics, ImplItem, ImplItemFn, MetaKind,
    PathArgs, ReturnType, Signature, Stmt, StmtKind, TypePath,
};
use placing::render::{render_fn, render_type_path};
use placing::strukt::rewrite_placing_fields;
use placing::text::{join_strings, text_is};

fn s(x: &str) -> String {
    x.to_string()
}

fn attr(path: &str, meta: MetaKind) -> Attr {
    Attr { path: s(path), meta, text: format!("#[{}]", path) }
}

fn sig(ident: &str, has_receiver: bool, output: ReturnType) -> Signature {
    Signature {
        qualifiers: s(""),
        ident: s(ident),
        generics: s(""),
        inputs: if has_receiver { vec![s("& self")] } else { vec![] },
        has_receiver,
        output,
        output_text: s(""),
        where_clause: s(""),
    }
}

fn kind(has_receiver: bool, output: ReturnType) -> FunctionKind {
    FunctionKind::from_fn(&sig("f", has_receiver, output), &s("Cat"))
}

#[test]
fn from_fn_classifies_functions() {
    assert_eq!(kind(false, ReturnType::Default), FunctionKind::Static);
    assert_eq!(kind(true, ReturnType::Default), FunctionKind::Method);
    assert_eq!(kind(false, ReturnType::Path(s("Self"))), FunctionKind::Constructor(HeapTy::Inline));
    assert_eq!(kind(false, ReturnType::Path(s("Cat"))), FunctionKind::Constructor(HeapTy::Inline));
    assert_eq!(kind(false, ReturnType::Path(s("Box < Self >"))), FunctionKind::Constructor(HeapTy::Box));
    assert_eq!(kind(true, ReturnType::Path(s("Self"))), FunctionKind::Builder(HeapTy::Inline));
    assert_eq!(kind(true, ReturnType::Path(s("Box < Self >"))), FunctionKind::Builder(HeapTy::Box));
    assert_eq!(kind(false, ReturnType::Path(s("Dog"))), FunctionKind::Static);
    assert_eq!(kind(true, ReturnType::Path(s("Box < Cat >"))), FunctionKind::Method);
    assert_eq!(kind(false, ReturnType::Other), FunctionKind::Static);
}

#[test]
fn has_placing_attr_reads_the_first_marker() {
    assert_eq!(has_placing_attr(&vec![]), Ok(false));
    assert_eq!(has_placing_attr(&vec![attr("inline", MetaKind::Path)]), Ok(false));
    assert_eq!(has_placing_attr(&vec![attr("inline", MetaKind::Path), attr("placing", MetaKind::Path)]), Ok(true));
    assert_eq!(has_placing_attr(&vec![attr("doc", MetaKind::NameValue), attr("placing", MetaKind::List)]), Err(1));
    assert_eq!(
        has_placing_attr(&vec![attr("placing", MetaKind::Path), attr("placing", MetaKind::List)]),
        Ok(true)
    );
    assert_eq!(has_placing_attr(&vec![attr("placing :: placing", MetaKind::Path)]), Ok(false));
}

#[test]
fn strip_placing_attr_keeps_the_others_in_order() {
    let attrs = vec![
        attr("placing", MetaKind::Path),
        attr("inline", MetaKind::Path),
        attr("placing", MetaKind::List),
        attr("doc", MetaKind::NameValue),
    ];
    let r = strip_placing_attr(attrs);
    let paths: Vec<&str> = r.iter().map(|a| a.path.as_str()).collect();
    assert_eq!(paths, vec!["inline", "doc"]);
}

#[test]
fn law_strip_idempotent_on_values() {
    let attrs = vec![attr("placing", MetaKind::Path), attr("inline", MetaKind::Path), attr("placing", MetaKind::Path)];
    let once = strip_placing_attr(attrs);
    assert_eq!(has_placing_attr(&once), Ok(false));
    let once_paths: Vec<String> = once.iter().map(|a| a.path.clone()).collect();
    let twice = strip_placing_attr(once);
    let twice_paths: Vec<String> = twice.iter().map(|a| a.path.clone()).collect();
    assert_eq!(once_paths, twice_paths);
    assert_eq!(twice_paths, vec![s("inline")]);
}

fn generics() -> Generics {
    Generics {
        params: vec![
            GenericParam { is_lifetime: false, decl: s("T : Clone"), arg: s("T"), default: None },
            GenericParam { is_lifetime: true, decl: s("'a"), arg: s("'a"), default: None },
        ],
        where_clause: Some(s("where T : 'a")),
    }
}

#[test]
fn maybe_generics_add_the_flag_last() {
    let g = generics();
    let m = create_maybe_generics(&g);
    assert_eq!(m.params.len(), 3);
    assert_eq!(m.params[2].decl, "const EMPLACE: bool");
    assert_eq!(m.params[2].default, Some(s("false")));
    assert_eq!(render_struct_generics(&m), "<'a, T : Clone, const EMPLACE: bool = false>");
    assert_eq!(m.params[2].arg, "EMPLACE");
    assert!(!m.params[2].is_lifetime);
    assert_eq!(m.params[0].decl, "T : Clone");
    assert_eq!(m.where_clause, Some(s("where T : 'a")));
    assert_eq!(render_impl_generics(&m), "<'a, T : Clone, const EMPLACE: bool>");
    assert_eq!(render_ty_generics(&m), "<'a, T, EMPLACE>");
    assert_eq!(render_where(&m), "where T : 'a");
}

#[test]
fn empty_generics_write_nothing() {
    let g = Generics { params: vec![], where_clause: None };
    assert_eq!(render_impl_generics(&g), "");
    assert_eq!(render_ty_generics(&g), "");
    assert_eq!(render_where(&g), "");
    assert_eq!(render_impl_generics(&create_maybe_generics(&g)), "<const EMPLACE: bool>");
    assert_eq!(render_struct_generics(&create_maybe_generics(&g)), "<const EMPLACE: bool = false>");
}

#[test]
fn set_path_generics_replaces_the_last_segment_arguments() {
    let p = TypePath { prefix: s("pets ::"), ident: s("Cat"), args: PathArgs::Angle(vec![s("u8")]) };
    let r = set_path_generics(&p, &generics(), "true");
    assert_eq!(render_type_path(&r), "pets ::Cat<T, 'a, true>");
    let bare = TypePath { prefix: s(""), ident: s("Cat"), args: PathArgs::Bare };
    let r = set_path_generics(&bare, &Generics { params: vec![], where_clause: None }, "EMPLACE");
    assert_eq!(render_type_path(&r), "Cat<EMPLACE>");
}

#[test]
fn text_helpers() {
    assert!(text_is(&s("placing"), "placing"));
    assert!(!text_is(&s("placing"), "placin"));
    assert_eq!(join_strings(&vec![s("a"), s("b"), s("c")], ", "), "a, b, c");
    assert_eq!(join_strings(&vec![], ", "), "");
}

fn ctor(stmts: Vec<Stmt>) -> ImplItemFn {
    ImplItemFn {
        attrs: vec![],
        vis: s("pub"),
        defaultness: false,
        sig: Signature {
            qualifiers: s(""),
            ident: s("new"),
            generics: s("< T >"),
            inputs: vec![s("a : T"), s("b : u8")],
            has_receiver: false,
            output: ReturnType::Path(s("Self")),
            output_text: s("-> Self"),
            where_clause: s("where T : Copy"),
        },
        block: Block { stmts },
    }
}

fn fv(member: &str, expr: &str) -> FieldValue {
    FieldValue { attrs: vec![], member: s(member), expr: s(expr), shorthand: false, call: None }
}

#[test]
fn inline_new_init_writes_every_field_in_order() {
    let st = ExprStruct { fields: vec![fv("a", "a"), fv("b", "b + 1")] };
    assert_eq!(
        inline_new_init(&st),
        "{ let _this = self.inner.as_mut_ptr(); \
         { unsafe { (&raw mut (*_this).a).write(a) }; } \
         { unsafe { (&raw mut (*_this).b).write(b + 1) }; } }"
    );
    assert_eq!(inline_new_init(&ExprStruct { fields: vec![] }), "{ let _this = self.inner.as_mut_ptr(); }");
}

#[test]
fn placing_constructor_keeps_inputs_generics_and_where() {
    let tail = Stmt {
        text: s("Self { a , b }"),
        kind: StmtKind::Expr(Expr::Struct(ExprStruct { fields: vec![fv("a", "a"), fv("b", "b")] }), false),
    };
    let (u, i) = rewrite_placing_constructor(&ctor(vec![tail]), HeapTy::Inline, 4).unwrap();
    assert_eq!(u, "pub unsafe fn new_uninit() -> Self { Self { inner: ::core::mem::MaybeUninit::uninit() } }");
    assert!(i.starts_with("pub unsafe fn new_init< T >(&mut self, a : T, b : u8) where T : Copy { {"));
}

#[test]
fn moving_constructor_rewrites_only_the_last_statement() {
    let stmts = vec![
        Stmt { text: s("let b = 2 ;"), kind: StmtKind::Other },
        Stmt {
            text: s("Self { a , b }"),
            kind: StmtKind::Expr(Expr::Struct(ExprStruct { fields: vec![fv("a", "a"), fv("b", "b")] }), false),
        },
    ];
    let r = rewrite_moving_constructor(&ctor(stmts), &s("Cat"), 0).unwrap();
    assert_eq!(
        r,
        "pub  fn new< T >(a : T, b : u8) -> Self where T : Copy \
         { let b = 2 ; Cat { inner: ::core::mem::MaybeUninit::new(InnerCat { a: a, b: b }) } }"
    );
    let r = rewrite_moving_constructor(&ctor(vec![]), &s("Cat"), 3);
    assert_eq!(r, Err(MacroError { kind: ErrorKind::EmptyConstructor, location: Location::ItemBlock { item: 3 } }));
}

#[test]
fn render_fn_writes_a_function_as_it_stands() {
    let mut f = ctor(vec![Stmt { text: s("todo ! ()"), kind: StmtKind::Other }]);
    f.attrs = vec![attr("inline", MetaKind::Path)];
    f.defaultness = true;
    assert_eq!(render_fn(&f), "#[inline] pub default  fn new< T >(a : T, b : u8) -> Self where T : Copy { todo ! () }");
}

#[test]
fn law_every_item_accounted_on_values() {
    let plain = |name: &str, recv: bool| {
        ImplItem::Fn(ImplItemFn {
            attrs: vec![],
            vis: s(""),
            defaultness: false,
            sig: sig(name, recv, ReturnType::Default),
            block: Block { stmts: vec![] },
        })
    };
    let placed = ImplItem::Fn(ImplItemFn {
        attrs: vec![attr("placing", MetaKind::Path)],
        vis: s(""),
        defaultness: false,
        sig: sig("new", false, ReturnType::Path(s("Self"))),
        block: Block {
            stmts: vec![Stmt {
                text: s("Self { }"),
                kind: StmtKind::Expr(Expr::Struct(ExprStruct { fields: vec![] }), false),
            }],
        },
    });
    let items = vec![plain("a", true), ImplItem::Other(s("type X = u8 ;")), placed, plain("b", false), plain("c", true)];
    let n = items.len();
    let fns = rewrite_fns(items, &s("Cat")).ok().unwrap();
    assert_eq!(fns.methods.len(), 2);
    assert_eq!(fns.statics.len(), 1);
    assert_eq!(fns.non_fn_items.len(), 1);
    assert_eq!(fns.emplacing_constructors.len(), 2);
    assert_eq!(fns.non_emplacing_constructors.len(), 0);
    assert_eq!(
        fns.methods.len() + fns.statics.len() + fns.non_fn_items.len() + fns.emplacing_constructors.len() / 2
            + fns.non_emplacing_constructors.len(),
        n
    );
    // the plain functions pass through as they stand, in order
    assert_eq!(fns.methods[0], "  fn a(& self)   {  }");
    assert_eq!(fns.methods[1], "  fn c(& self)   {  }");
}

#[test]
fn field_rewrite_leaves_unmarked_fields_alone() {
    let plain = Field {
        attrs: vec![attr("doc", MetaKind::NameValue)],
        vis: s("pub"),
        ident: Some(s("age")),
        ty: FieldType::Path(TypePath { prefix: s(""), ident: s("u8"), args: PathArgs::Bare }),
    };
    let marked = Field {
        attrs: vec![attr("placing", MetaKind::Path)],
        vis: s(""),
        ident: Some(s("cat")),
        ty: FieldType::Path(TypePath { prefix: s(""), ident: s("Cat"), args: PathArgs::Bare }),
    };
    let fs = Fields { shape: FieldsShape::Named, fields: vec![plain, marked] };
    let r = rewrite_placing_fields(fs).ok().unwrap();
    assert_eq!(r.fields.len(), 2);
    assert_eq!(r.fields[0].attrs.len(), 1);
    match &r.fields[0].ty {
        FieldType::Path(p) => assert!(matches!(p.args, PathArgs::Bare)),
        FieldType::Other(_) => panic!("type changed"),
    }
    assert_eq!(r.fields[1].attrs.len(), 0);
    match &r.fields[1].ty {
        FieldType::Path(p) => match &p.args {
            PathArgs::Angle(v) => assert_eq!(v, &vec![s("EMPLACE")]),
            _ => panic!("flag not passed"),
        },
        FieldType::Other(_) => panic!("type changed"),
    }
}

#[test]
fn error_messages_name_their_code() {
    let kinds = [
        (ErrorKind::InvalidItemKind, "E0001"),
        (ErrorKind::TraitImpl, "E0002"),
        (ErrorKind::InvalidImplTarget, "E0003"),
        (ErrorKind::InvalidAttr, "E0004"),
        (ErrorKind::EmptyConstructor, "E0005"),
        (ErrorKind::InvalidConstructorBody, "E0006"),
        (ErrorKind::UnsupportedPointerBody, "E0006"),
        (ErrorKind::InvalidPlacingTarget, "E0007"),
        (ErrorKind::InvalidPointerConstructor, "E0008"),
        (ErrorKind::InvalidPointerArgument, "E0008"),
        (ErrorKind::InvalidFieldType, "E0010"),
    ];
    for (kind, code) in kinds {
        let m = MacroError { kind, location: Location::CallSite }.message();
        assert!(m.contains(code), "{} lacks {}", m, code);
    }
    assert_eq!(
        MacroError { kind: ErrorKind::InvalidFieldType, location: Location::CallSite }.message(),
        "[E0010, placing] invalid `#[placing]` target type"
    );
}
