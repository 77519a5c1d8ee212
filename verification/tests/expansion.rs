use placing::error::{ErrorKind, Location, MacroError};
use placing::is_supported;
use placing::model::{
    Arg, Attr, Block, Expr, ExprCall, ExprStruct, Field, FieldType, FieldValue, Fields, FieldsShape,
    GenericParam, Generics, ImplItem, PathCall, ImplItemFn, Item, ItemImpl, ItemStruct, MetaKind, PathArgs,
    ReturnType, SelfType, Signature, Stmt, StmtKind, TypePath,
};
use placing::placing;

fn s(x: &str) -> String {
    x.to_string()
}

fn attr(path: &str, meta: MetaKind, text: &str) -> Attr {
    Attr { path: s(path), meta, text: s(text) }
}

fn no_generics() -> Generics {
    Generics { params: vec![], where_clause: None }
}

fn path_ty(ident: &str) -> TypePath {
    TypePath { prefix: s(""), ident: s(ident), args: PathArgs::Bare }
}

fn field(name: &str, ty: &str) -> Field {
    Field { attrs: vec![], vis: s(""), ident: Some(s(name)), ty: FieldType::Path(path_ty(ty)) }
}

fn named_struct(ident: &str, fields: Vec<Field>) -> ItemStruct {
    ItemStruct {
        vis: s(""),
        ident: s(ident),
        generics: no_generics(),
        fields: Fields { shape: FieldsShape::Named, fields },
        semi: false,
    }
}

fn fv(member: &str, expr: &str, shorthand: bool) -> FieldValue {
    FieldValue { attrs: vec![], member: s(member), expr: s(expr), shorthand, call: None }
}

fn struct_stmt(text: &str, fields: Vec<FieldValue>) -> Stmt {
    Stmt { text: s(text), kind: StmtKind::Expr(Expr::Struct(ExprStruct { fields }), false) }
}

fn sig(ident: &str, inputs: Vec<&str>, has_receiver: bool, output: &str) -> Signature {
    let (out, text) = if output.is_empty() {
        (ReturnType::Default, String::new())
    } else if output == "& u8" {
        (ReturnType::Other, format!("-> {}", output))
    } else {
        (ReturnType::Path(s(output)), format!("-> {}", output))
    };
    Signature {
        qualifiers: s(""),
        ident: s(ident),
        generics: s(""),
        inputs: inputs.into_iter().map(s).collect(),
        has_receiver,
        output: out,
        output_text: text,
        where_clause: s(""),
    }
}

fn func(attrs: Vec<Attr>, sig: Signature, stmts: Vec<Stmt>) -> ImplItem {
    ImplItem::Fn(ImplItemFn { attrs, vis: s(""), defaultness: false, sig, block: Block { stmts } })
}

fn cat_impl(items: Vec<ImplItem>) -> ItemImpl {
    ItemImpl {
        defaultness: false,
        unsafety: false,
        generics: no_generics(),
        is_trait: false,
        self_ty: SelfType::Path(path_ty("Cat")),
        items,
    }
}

fn placing_marker() -> Attr {
    attr("placing", MetaKind::Path, "#[placing]")
}

fn age_getter() -> ImplItem {
    func(
        vec![],
        sig("age", vec!["& self"], true, "& u8"),
        vec![Stmt { text: s("& self . age"), kind: StmtKind::Expr(Expr::Other, false) }],
    )
}

fn expand(item: Item) -> Result<String, MacroError> {
    assert!(is_supported(&item));
    placing(item)
}

/// The text with each run of whitespace made a single space.
fn squash(x: &str) -> String {
    x.split_whitespace().collect::<Vec<_>>().join(" ")
}

fn expand_ok(item: Item) -> String {
    squash(&expand(item).unwrap())
}

fn err(kind: ErrorKind, location: Location) -> Result<String, MacroError> {
    Err(MacroError { kind, location })
}

#[test]
fn placing_runs_struct() {
    let out = expand_ok(Item::Struct(named_struct("Cat", vec![field("age", "u8")])));
    assert_eq!(
        out,
        "struct Cat<const EMPLACE: bool = false> { inner: ::core::mem::MaybeUninit<InnerCat<EMPLACE>> } \
         struct InnerCat<const EMPLACE: bool = false> { age: u8 } \
         impl<const EMPLACE: bool> ::core::ops::Deref for Cat<EMPLACE> { type Target = InnerCat<EMPLACE>; \
         fn deref(&self) -> &Self::Target { unsafe { self.inner.assume_init_ref() } } } \
         impl<const EMPLACE: bool> ::core::ops::DerefMut for Cat<EMPLACE> { \
         fn deref_mut(&mut self) -> &mut Self::Target { unsafe { self.inner.assume_init_mut() } } } \
         impl<const EMPLACE: bool> Drop for Cat<EMPLACE> { fn drop(&mut self) { unsafe { self.inner.assume_init_drop() } } }"
    );
}

#[test]
fn placing_runs_impl() {
    let new = func(
        vec![placing_marker()],
        sig("new", vec!["age : u8"], false, "Self"),
        vec![struct_stmt("Self { age }", vec![fv("age", "age", true)])],
    );
    let out = expand_ok(Item::Impl(cat_impl(vec![new, age_getter()])));
    assert_eq!(
        out,
        "impl Cat<false> { } \
         impl Cat<true> { unsafe fn new_uninit() -> Self { Self { inner: ::core::mem::MaybeUninit::uninit() } } \
         unsafe fn new_init(&mut self, age : u8) { { let _this = self.inner.as_mut_ptr(); \
         { unsafe { (&raw mut (*_this).age).write(age) }; } } } } \
         impl<const EMPLACE: bool> Cat<EMPLACE> { fn age(& self) -> & u8 { & self . age } }"
    );
}

#[test]
fn super_body_keeps_leading_statements() {
    let new = func(
        vec![placing_marker()],
        sig("new", vec!["age : u8"], false, "Self"),
        vec![
            Stmt { text: s("let age = age * 2 ;"), kind: StmtKind::Other },
            struct_stmt("Self { age }", vec![fv("age", "age", true)]),
        ],
    );
    let out = expand_ok(Item::Impl(cat_impl(vec![new])));
    assert!(out.contains(
        "unsafe fn new_init(&mut self, age : u8) { let age = age * 2 ; { let _this = self.inner.as_mut_ptr(); \
         { unsafe { (&raw mut (*_this).age).write(age) }; } } }"
    ));
}

#[test]
fn regular_constructor() {
    let new = func(
        vec![],
        sig("new", vec!["age : u8"], false, "Self"),
        vec![struct_stmt("Self { age }", vec![fv("age", "age", true)])],
    );
    let out = expand_ok(Item::Impl(cat_impl(vec![new, age_getter()])));
    assert_eq!(
        out,
        "impl Cat<false> { fn new(age : u8) -> Self { Cat { inner: ::core::mem::MaybeUninit::new(InnerCat { age }) } } } \
         impl Cat<true> { } \
         impl<const EMPLACE: bool> Cat<EMPLACE> { fn age(& self) -> & u8 { & self . age } }"
    );
}

#[test]
fn regular_constructor_named_fields_and_semicolon() {
    let new = func(
        vec![attr("doc", MetaKind::NameValue, "#[doc = \" Makes a cat\"]")],
        sig("new", vec![], false, "Cat"),
        vec![Stmt {
            text: s("Cat { age : 3 , } ;"),
            kind: StmtKind::Expr(Expr::Struct(ExprStruct { fields: vec![fv("age", "3", false)] }), true),
        }],
    );
    let out = expand_ok(Item::Impl(cat_impl(vec![new])));
    assert!(out.starts_with(
        "impl Cat<false> { #[doc = \" Makes a cat\"] fn new() -> Cat { \
         Cat { inner: ::core::mem::MaybeUninit::new(InnerCat { age: 3 }) }; } }"
    ));
}

#[test]
fn placing_box() {
    let boxed = Stmt {
        text: s("Box :: new (Self { age })"),
        kind: StmtKind::Expr(
            Expr::Call(ExprCall {
                func_path: Some(s("Box :: new")),
                args: vec![Arg::Struct(ExprStruct { fields: vec![fv("age", "age", true)] })],
            }),
            false,
        ),
    };
    let new = func(vec![placing_marker()], sig("new", vec!["age : u8"], false, "Box < Self >"), vec![boxed]);
    let out = expand_ok(Item::Impl(cat_impl(vec![new, age_getter()])));
    assert_eq!(
        out,
        "impl Cat<false> { } \
         impl Cat<true> { unsafe fn placing_uninit_new() -> Box<Self> { unsafe { Box::<Self>::new_uninit().assume_init() } } \
         unsafe fn placing_init_new(&mut self, age : u8) { { let _this = self.inner.as_mut_ptr(); \
         { unsafe { (&raw mut (*_this).age).write(age) }; } } } } \
         impl<const EMPLACE: bool> Cat<EMPLACE> { fn age(& self) -> & u8 { & self . age } }"
    );
}

#[test]
fn preserves_associated_items() {
    let item = ImplItem::Other(s("const NAME : & str = \"chashu\" ;"));
    let out = expand_ok(Item::Impl(cat_impl(vec![item])));
    assert_eq!(
        out,
        "impl Cat<false> { const NAME : & str = \"chashu\" ; } impl Cat<true> { } \
         impl<const EMPLACE: bool> Cat<EMPLACE> { }"
    );
}

fn cat_generics() -> Generics {
    Generics {
        params: vec![
            GenericParam { is_lifetime: false, decl: s("K"), arg: s("K"), default: None },
            GenericParam { is_lifetime: false, decl: s("J"), arg: s("J"), default: None },
            GenericParam { is_lifetime: false, decl: s("const N : usize"), arg: s("N"), default: None },
        ],
        where_clause: Some(s("where J : Send")),
    }
}

#[test]
fn generics_struct() {
    let mut st = named_struct(
        "Cat",
        vec![
            field("k", "K"),
            field("j", "J"),
            Field { attrs: vec![], vis: s(""), ident: Some(s("foo")), ty: FieldType::Other(s("[u8 ; N]")) },
        ],
    );
    st.generics = cat_generics();
    let out = expand_ok(Item::Struct(st));
    assert!(out.starts_with(
        "struct Cat<K, J, const N : usize, const EMPLACE: bool = false> where J : Send \
         { inner: ::core::mem::MaybeUninit<InnerCat<K, J, N, EMPLACE>> } \
         struct InnerCat<K, J, const N : usize, const EMPLACE: bool = false> where J : Send { k: K, j: J, foo: [u8 ; N] } \
         impl<K, J, const N : usize, const EMPLACE: bool> ::core::ops::Deref for Cat<K, J, N, EMPLACE> where J : Send"
    ));
}

#[test]
fn generics_impl() {
    let mut im = cat_impl(vec![]);
    im.generics = cat_generics();
    im.self_ty = SelfType::Path(TypePath {
        prefix: s(""),
        ident: s("Cat"),
        args: PathArgs::Angle(vec![s("K"), s("J"), s("N")]),
    });
    let out = expand_ok(Item::Impl(im));
    assert_eq!(
        out,
        "impl<K, J, const N : usize> Cat<K, J, N, false> where J : Send { } \
         impl<K, J, const N : usize> Cat<K, J, N, true> where J : Send { } \
         impl<K, J, const N : usize, const EMPLACE: bool> Cat<K, J, N, EMPLACE> where J : Send { }"
    );
}

#[test]
fn lifetimes_come_first_in_generics() {
    let mut im = cat_impl(vec![]);
    im.generics = Generics {
        params: vec![
            GenericParam { is_lifetime: false, decl: s("T"), arg: s("T"), default: None },
            GenericParam { is_lifetime: true, decl: s("'a"), arg: s("'a"), default: None },
        ],
        where_clause: None,
    };
    let out = expand_ok(Item::Impl(im));
    // declarations put lifetimes first; the target's arguments keep the declared order
    assert!(out.starts_with("impl<'a, T> Cat<T, 'a, false> { }"));
    assert!(out.ends_with("impl<'a, T, const EMPLACE: bool> Cat<T, 'a, EMPLACE> { }"));
}

#[test]
fn nested_placing_field() {
    let mut cat = field("cat", "Cat");
    cat.attrs = vec![placing_marker(), attr("allow", MetaKind::List, "#[allow(unused)]")];
    let out = expand_ok(Item::Struct(named_struct("Bed", vec![cat])));
    assert!(out.contains("struct InnerBed<const EMPLACE: bool = false> { #[allow(unused)] cat: Cat<EMPLACE> }"));
}

#[test]
fn placing_field_with_arguments_gets_flag_last() {
    let mut f = field("cats", "Vec");
    f.attrs = vec![placing_marker()];
    f.ty = FieldType::Path(TypePath {
        prefix: s("std :: vec ::"),
        ident: s("Vec"),
        args: PathArgs::Angle(vec![s("Cat")]),
    });
    let out = expand_ok(Item::Struct(named_struct("Bed", vec![f])));
    assert!(out.contains("{ cats: std :: vec ::Vec<Cat, EMPLACE> }"));
}

#[test]
fn tuple_struct_keeps_semicolon() {
    let st = ItemStruct {
        vis: s("pub"),
        ident: s("Age"),
        generics: no_generics(),
        fields: Fields {
            shape: FieldsShape::Unnamed,
            fields: vec![Field { attrs: vec![], vis: s(""), ident: None, ty: FieldType::Path(path_ty("u8")) }],
        },
        semi: true,
    };
    let out = expand_ok(Item::Struct(st));
    assert!(out.starts_with("pub struct Age<const EMPLACE: bool = false> { inner: ::core::mem::MaybeUninit<InnerAge<EMPLACE>> } \
         struct InnerAge<const EMPLACE: bool = false> ( u8); impl"));
}

#[test]
fn e0001_invalid_item_kind() {
    assert_eq!(expand(Item::Other), err(ErrorKind::InvalidItemKind, Location::CallSite));
}

#[test]
fn e0002_trait_impls_unsupported() {
    let mut im = cat_impl(vec![]);
    im.is_trait = true;
    assert_eq!(expand(Item::Impl(im)), err(ErrorKind::TraitImpl, Location::CallSite));
}

#[test]
fn e0003_invalid_impl_target() {
    let mut im = cat_impl(vec![]);
    im.self_ty = SelfType::Other;
    assert_eq!(expand(Item::Impl(im)), err(ErrorKind::InvalidImplTarget, Location::ImplToken));
}

#[test]
fn e0004_invalid_attr() {
    let list = func(
        vec![attr("placing", MetaKind::List, "#[placing(invalid)]")],
        sig("list", vec!["& self"], true, "Self"),
        vec![],
    );
    let path = func(
        vec![attr("inline", MetaKind::Path, "#[inline]"), attr("placing", MetaKind::NameValue, "#[placing = \"invalid\"]")],
        sig("path", vec!["& self"], true, "Self"),
        vec![],
    );
    assert_eq!(
        expand(Item::Impl(cat_impl(vec![list]))),
        err(ErrorKind::InvalidAttr, Location::ItemAttr { item: 0, attr: 0 })
    );
    assert_eq!(
        expand(Item::Impl(cat_impl(vec![age_getter(), path]))),
        err(ErrorKind::InvalidAttr, Location::ItemAttr { item: 1, attr: 1 })
    );
}

#[test]
fn e0005_empty_constructor() {
    let new = func(vec![placing_marker()], sig("new", vec![], false, "Self"), vec![]);
    assert_eq!(expand(Item::Impl(cat_impl(vec![new]))), err(ErrorKind::EmptyConstructor, Location::ItemBlock { item: 0 }));
}

#[test]
fn e0006_invalid_constructor_body_non_struct() {
    let block = Stmt { text: s("{ Self { } }"), kind: StmtKind::Expr(Expr::Other, false) };
    let new = func(vec![placing_marker()], sig("new", vec![], false, "Self"), vec![block]);
    assert_eq!(
        expand(Item::Impl(cat_impl(vec![new]))),
        err(ErrorKind::InvalidConstructorBody, Location::ItemLastExpr { item: 0 })
    );
    let local = Stmt { text: s("let cat = Self { } ;"), kind: StmtKind::Other };
    let new = func(vec![], sig("new", vec![], false, "Self"), vec![local]);
    assert_eq!(
        expand(Item::Impl(cat_impl(vec![age_getter(), new]))),
        err(ErrorKind::InvalidConstructorBody, Location::ItemLastStmt { item: 1 })
    );
}

#[test]
fn e0006_pointer_constructor_without_path_callee() {
    let call = Stmt {
        text: s("(make) (Self { })"),
        kind: StmtKind::Expr(Expr::Call(ExprCall { func_path: None, args: vec![] }), false),
    };
    let new = func(vec![placing_marker()], sig("new", vec![], false, "Box < Self >"), vec![call]);
    assert_eq!(
        expand(Item::Impl(cat_impl(vec![new]))),
        err(ErrorKind::UnsupportedPointerBody, Location::ItemLastExpr { item: 0 })
    );
}

#[test]
fn e0007_placing_on_method() {
    let mut getter = age_getter();
    if let ImplItem::Fn(f) = &mut getter {
        f.attrs.push(placing_marker());
    }
    assert_eq!(
        expand(Item::Impl(cat_impl(vec![getter]))),
        err(ErrorKind::InvalidPlacingTarget, Location::ItemSig { item: 0 })
    );
}

#[test]
fn e0008_invalid_pointer_constructor() {
    let empty_call = Stmt {
        text: s("Box :: new ()"),
        kind: StmtKind::Expr(Expr::Call(ExprCall { func_path: Some(s("Box :: new")), args: vec![] }), false),
    };
    let new = func(vec![placing_marker()], sig("new", vec!["age : u8"], false, "Box < Self >"), vec![empty_call]);
    assert_eq!(
        expand(Item::Impl(cat_impl(vec![new]))),
        err(ErrorKind::InvalidPointerArgument, Location::ItemLastExpr { item: 0 })
    );
    let rc_call = Stmt {
        text: s("Rc :: new (Self { })"),
        kind: StmtKind::Expr(
            Expr::Call(ExprCall {
                func_path: Some(s("Rc :: new")),
                args: vec![Arg::Struct(ExprStruct { fields: vec![] })],
            }),
            false,
        ),
    };
    let new = func(vec![placing_marker()], sig("new", vec![], false, "Box < Self >"), vec![rc_call]);
    assert_eq!(
        expand(Item::Impl(cat_impl(vec![new]))),
        err(ErrorKind::InvalidPointerConstructor, Location::ItemLastExpr { item: 0 })
    );
}

#[test]
fn e0010_invalid_placing_field_type() {
    let mut f = field("cat", "Cat");
    f.attrs = vec![placing_marker()];
    f.ty = FieldType::Other(s("(Cat , Cat)"));
    assert_eq!(
        expand(Item::Struct(named_struct("Bed", vec![field("age", "u8"), f]))),
        err(ErrorKind::InvalidFieldType, Location::FieldType { field: 1 })
    );
}

#[test]
fn invalid_field_attr() {
    let mut f = field("cat", "Cat");
    f.attrs = vec![attr("doc", MetaKind::NameValue, "#[doc = \"x\"]"), attr("placing", MetaKind::List, "#[placing(x)]")];
    assert_eq!(
        expand(Item::Struct(named_struct("Bed", vec![f]))),
        err(ErrorKind::InvalidAttr, Location::FieldAttr { field: 0, attr: 1 })
    );
}

#[test]
fn first_error_wins() {
    let bad_method = {
        let mut g = age_getter();
        if let ImplItem::Fn(f) = &mut g {
            f.attrs.push(placing_marker());
        }
        g
    };
    let empty_ctor = func(vec![placing_marker()], sig("new", vec![], false, "Self"), vec![]);
    assert_eq!(
        expand(Item::Impl(cat_impl(vec![empty_ctor, bad_method]))),
        err(ErrorKind::EmptyConstructor, Location::ItemBlock { item: 0 })
    );
}

#[test]
fn builders_pass_through_among_the_methods() {
    let builder = func(
        vec![],
        sig("older", vec!["self"], true, "Self"),
        vec![Stmt { text: s("self"), kind: StmtKind::Expr(Expr::Other, false) }],
    );
    let out = expand_ok(Item::Impl(cat_impl(vec![builder])));
    assert_eq!(
        out,
        "impl Cat<false> { } impl Cat<true> { } \
         impl<const EMPLACE: bool> Cat<EMPLACE> { fn older(self) -> Self { self } }"
    );
}

#[test]
fn marked_builders_are_not_supported() {
    let builder = func(
        vec![placing_marker()],
        sig("older", vec!["self"], true, "Self"),
        vec![struct_stmt("Self { age : 1 }", vec![fv("age", "1", false)])],
    );
    assert!(!is_supported(&Item::Impl(cat_impl(vec![builder]))));
    // a refusal before the builder is reached still decides
    let empty_ctor = func(vec![placing_marker()], sig("new", vec![], false, "Self"), vec![]);
    let builder = func(vec![placing_marker()], sig("older", vec!["self"], true, "Self"), vec![]);
    let item = Item::Impl(cat_impl(vec![empty_ctor, builder]));
    assert!(is_supported(&item));
    assert_eq!(placing(item), err(ErrorKind::EmptyConstructor, Location::ItemBlock { item: 0 }));
}

#[test]
fn nested_placing_constructor() {
    let cat_value = FieldValue {
        attrs: vec![placing_marker()],
        member: s("cat"),
        expr: s("Cat :: new (12)"),
        shorthand: false,
        call: Some(PathCall { owner: s("Cat ::"), method: s("new"), args: vec![s("12")] }),
    };
    let new = func(
        vec![placing_marker()],
        sig("new", vec![], false, "Self"),
        vec![struct_stmt("Self { # [placing] cat : Cat :: new (12) }", vec![cat_value])],
    );
    let mut bed = cat_impl(vec![new]);
    bed.self_ty = SelfType::Path(path_ty("Bed"));
    let out = expand_ok(Item::Impl(bed));
    assert!(out.contains(
        "unsafe fn new_init(&mut self) { { let _this = self.inner.as_mut_ptr(); \
         { unsafe { Cat ::new_init(&mut (*_this).cat, 12) }; } } }"
    ));
}

#[test]
fn moving_constructor_copies_field_initializers_as_they_stand() {
    let cat_value = FieldValue {
        attrs: vec![placing_marker(), attr("allow", MetaKind::List, "#[allow(unused)]")],
        member: s("cat"),
        expr: s("Cat :: new (12)"),
        shorthand: false,
        call: Some(PathCall { owner: s("Cat ::"), method: s("new"), args: vec![s("12")] }),
    };
    let new = func(vec![], sig("new", vec![], false, "Self"), vec![struct_stmt("Self { .. }", vec![cat_value])]);
    let mut bed = cat_impl(vec![new]);
    bed.self_ty = SelfType::Path(path_ty("Bed"));
    let out = expand_ok(Item::Impl(bed));
    assert!(out.contains(
        "Bed { inner: ::core::mem::MaybeUninit::new(InnerBed { #[placing] #[allow(unused)] cat: Cat :: new (12) }) }"
    ));
}

#[test]
fn struct_defaults_stay_on_the_types_only() {
    let mut st = named_struct("Cat", vec![field("t", "T")]);
    st.generics = Generics {
        params: vec![GenericParam { is_lifetime: false, decl: s("T"), arg: s("T"), default: Some(s("u8")) }],
        where_clause: None,
    };
    let out = expand_ok(Item::Struct(st));
    assert!(out.starts_with(
        "struct Cat<T = u8, const EMPLACE: bool = false> { inner: ::core::mem::MaybeUninit<InnerCat<T, EMPLACE>> } \
         struct InnerCat<T = u8, const EMPLACE: bool = false> { t: T } \
         impl<T, const EMPLACE: bool> ::core::ops::Deref for Cat<T, EMPLACE>"
    ));
}

#[test]
fn refusal_messages() {
    let msg = |kind| MacroError { kind, location: Location::CallSite }.message();
    assert_eq!(
        msg(ErrorKind::InvalidItemKind),
        "`[placing, E0001] invalid item kind: macro `placing` can only be used on inherent impls and structs"
    );
    assert_eq!(
        msg(ErrorKind::TraitImpl),
        "`[spati, E0002] trait impls unsupported: macro `spati` can only be used on bare `impl {}` blocks"
    );
    assert_eq!(
        msg(ErrorKind::InvalidImplTarget),
        "[E0003, spati] invalid impl target: `spati` doesn't work for impls on tuples, slices, or other non-path types"
    );
    assert_eq!(
        msg(ErrorKind::InvalidAttr),
        "[E0004, spati] invalid attr: the #[placing] attribute does not support any additional arguments"
    );
    assert_eq!(
        msg(ErrorKind::EmptyConstructor),
        "[E0005, spati] empty constructor body: functions marked `#[placing]` cannot be empty"
    );
    assert_eq!(
        msg(ErrorKind::UnsupportedPointerBody),
        "[E0006, spati] invalid constructor body: functions marked `#[placing]` can only end with a fixed set of expressions"
    );
    assert_eq!(msg(ErrorKind::InvalidPointerConstructor), "[E0008, spati] invalid pointer constructor");
    assert_eq!(msg(ErrorKind::InvalidFieldType), "[E0010, placing] invalid `#[placing]` target type");
    assert_eq!(
        msg(ErrorKind::InvalidConstructorBody),
        "[E0006, spati] invalid constructor body: functions marked `#[placing]` have to end with a struct expression"
    );
    assert_eq!(
        msg(ErrorKind::InvalidPlacingTarget),
        "[E0007, spati] invalid super target: the #[placing] attribute cannot be applied to static functions"
    );
    assert_eq!(msg(ErrorKind::InvalidPointerArgument), "[E0008, spati] invalid pointer constructor`");
}

#[test]
fn parenthesized_placing_field_is_not_supported() {
    let mut f = field("f", "Fn");
    f.attrs = vec![placing_marker()];
    f.ty = FieldType::Path(TypePath { prefix: s(""), ident: s("Fn"), args: PathArgs::Parenthesized(s("(u8)")) });
    assert!(!is_supported(&Item::Struct(named_struct("Bed", vec![f]))));
}
