//! The syntax that the expansion reads, held as plain values.
//!
//! Pieces that the expansion only passes through (expressions, types,
//! visibilities, attribute bodies) are kept as their source text; the
//! shapes that the expansion inspects are kept as variants and fields.
use vstd::prelude::*;

verus! {

/// The form of an attribute's contents: `#[a]`, `#[a(..)]` or `#[a = ..]`.
#[derive(Clone, Copy, Debug, PartialEq, Eq, Structural)]
pub enum MetaKind {
    Path,
    List,
    NameValue,
}

/// An outer attribute.
pub struct Attr {
    /// The attribute's path, as token text (`placing`, `doc`, `a :: b`).
    pub path: String,
    pub meta: MetaKind,
    /// The whole attribute, `#[..]` included.
    pub text: String,
}

/// One generic parameter of an item.
pub struct GenericParam {
    pub is_lifetime: bool,
    /// The parameter as declared, without its default (`T : Clone`, `'a`, `const N : usize`).
    pub decl: String,
    /// The parameter as an argument (`T`, `'a`, `N`).
    pub arg: String,
    /// The default, without the `=` (`u8`, `false`), where it has one.
    pub default: Option<String>,
}

/// The generic parameters and `where` clause of an item.
pub struct Generics {
    pub params: Vec<GenericParam>,
    /// The `where` clause, `where` included, when it has predicates.
    pub where_clause: Option<String>,
}

/// The arguments of the last segment of a type path.
pub enum PathArgs {
    /// No arguments: `Cat`.
    Bare,
    /// Angle-bracketed arguments, each as text: `Cat<u8, T>`.
    Angle(Vec<String>),
    /// Parenthesized arguments, as text: `Fn(u8) -> u8`.
    Parenthesized(String),
}

/// A type path, split before its last segment.
pub struct TypePath {
    /// Everything before the last segment (`crate :: pets ::`), possibly empty.
    pub prefix: String,
    /// The identifier of the last segment.
    pub ident: String,
    pub args: PathArgs,
}

/// The type of a struct field.
pub enum FieldType {
    Path(TypePath),
    /// Any other type, as text.
    Other(String),
}

/// A struct field.
pub struct Field {
    pub attrs: Vec<Attr>,
    pub vis: String,
    /// The name, for a named field.
    pub ident: Option<String>,
    pub ty: FieldType,
}

#[derive(Clone, Copy, Debug, PartialEq, Eq, Structural)]
pub enum FieldsShape {
    Named,
    Unnamed,
    Unit,
}

/// The fields of a struct.
pub struct Fields {
    pub shape: FieldsShape,
    pub fields: Vec<Field>,
}

/// A struct definition.
pub struct ItemStruct {
    pub vis: String,
    pub ident: String,
    pub generics: Generics,
    pub fields: Fields,
    /// Whether the definition ends in `;` (unit and tuple structs).
    pub semi: bool,
}

/// A call of a function named by a path of more than one segment: `Cat::new(12)`.
pub struct PathCall {
    /// The path before the function's name, its `::` included (`Cat ::`).
    pub owner: String,
    /// The function's name (`new`).
    pub method: String,
    /// The arguments, each as text.
    pub args: Vec<String>,
}

/// `member: expr` in a struct expression.
pub struct FieldValue {
    pub attrs: Vec<Attr>,
    pub member: String,
    /// The value; for the shorthand `Self { age }` it is the member's name.
    pub expr: String,
    pub shorthand: bool,
    /// The value as a call of a function named by a path, when it is one.
    pub call: Option<PathCall>,
}

/// A struct expression `Path { fields }`.
pub struct ExprStruct {
    pub fields: Vec<FieldValue>,
}

/// An argument of a call, as far as the expansion looks at it.
pub enum Arg {
    Struct(ExprStruct),
    Other,
}

/// A call expression `func(args)`.
pub struct ExprCall {
    /// The callee's path as token text, when the callee is a path (`Box :: new`).
    pub func_path: Option<String>,
    pub args: Vec<Arg>,
}

/// An expression, as far as the expansion looks at it.
pub enum Expr {
    Struct(ExprStruct),
    Call(ExprCall),
    Other,
}

/// What a statement is.
pub enum StmtKind {
    /// An expression statement, with or without its `;`.
    Expr(Expr, bool),
    /// A `let`, an item or a macro statement.
    Other,
}

/// A statement, with its source text.
pub struct Stmt {
    pub text: String,
    pub kind: StmtKind,
}

pub struct Block {
    pub stmts: Vec<Stmt>,
}

/// What a function returns, as far as the expansion looks at it.
pub enum ReturnType {
    /// No `->`.
    Default,
    /// A path type; the path as token text (`Self`, `Box < Self >`).
    Path(String),
    Other,
}

/// A function signature.
pub struct Signature {
    /// `const`, `async`, `unsafe` and the ABI, as text.
    pub qualifiers: String,
    pub ident: String,
    /// The generic parameter list, `<..>` included, or empty.
    pub generics: String,
    /// The inputs, each as text, the receiver included.
    pub inputs: Vec<String>,
    /// Whether the first input is `self` in some form.
    pub has_receiver: bool,
    pub output: ReturnType,
    /// The return type with its arrow (`-> Self`), or empty.
    pub output_text: String,
    /// The `where` clause, or empty.
    pub where_clause: String,
}

/// A function in an impl block.
pub struct ImplItemFn {
    pub attrs: Vec<Attr>,
    pub vis: String,
    pub defaultness: bool,
    pub sig: Signature,
    pub block: Block,
}

/// An item of an impl block.
pub enum ImplItem {
    Fn(ImplItemFn),
    /// A constant, type, macro or other item, as text.
    Other(String),
}

/// The type an impl block is for.
pub enum SelfType {
    Path(TypePath),
    Other,
}

/// An impl block.
pub struct ItemImpl {
    pub defaultness: bool,
    pub unsafety: bool,
    pub generics: Generics,
    /// Whether this is `impl Trait for Type`.
    pub is_trait: bool,
    pub self_ty: SelfType,
    pub items: Vec<ImplItem>,
}

/// An item the attribute is placed on.
pub enum Item {
    Impl(ItemImpl),
    Struct(ItemStruct),
    Other,
}

} // verus!
