//! The errors the expansion reports in place of code, and what an expansion comes to.
use vstd::prelude::*;

verus! {

/// What went wrong.
#[derive(Clone, Copy, Debug, PartialEq, Eq, Structural)]
pub enum ErrorKind {
    /// E0001: the attribute is on something other than an impl block or a struct.
    InvalidItemKind,
    /// E0002: the impl block implements a trait.
    TraitImpl,
    /// E0003: the impl block is for a type that is not a path.
    InvalidImplTarget,
    /// E0004: a `#[placing]` attribute carries arguments.
    InvalidAttr,
    /// E0005: a constructor has an empty body.
    EmptyConstructor,
    /// E0006: a constructor does not end in a struct expression.
    InvalidConstructorBody,
    /// E0006: a heap constructor ends in a call whose callee is not a path.
    UnsupportedPointerBody,
    /// E0007: `#[placing]` is on a function that is not a constructor.
    InvalidPlacingTarget,
    /// E0008: a heap constructor does not end in `Box::new(..)`.
    InvalidPointerConstructor,
    /// E0008: the `Box::new` call of a heap constructor is not given a struct expression.
    InvalidPointerArgument,
    /// E0010: a `#[placing]` field's type is not a path.
    InvalidFieldType,
}

/// Where the error points. Item indices count the items of the impl block,
/// field indices the fields of the struct, attribute indices the attributes of that item or field.
#[derive(Clone, Copy, Debug, PartialEq, Eq, Structural)]
pub enum Location {
    /// The attribute's own invocation.
    CallSite,
    /// The `impl` keyword.
    ImplToken,
    /// An attribute of an impl item.
    ItemAttr { item: usize, attr: usize },
    /// The signature of an impl item.
    ItemSig { item: usize },
    /// The body of an impl item.
    ItemBlock { item: usize },
    /// The last statement of an impl item's body.
    ItemLastStmt { item: usize },
    /// The expression of the last statement of an impl item's body.
    ItemLastExpr { item: usize },
    /// An attribute of a struct field.
    FieldAttr { field: usize, attr: usize },
    /// The type of a struct field.
    FieldType { field: usize },
}

/// An error of the expansion: what and where.
#[derive(Clone, Copy, Debug, PartialEq, Eq, Structural)]
pub struct MacroError {
    pub kind: ErrorKind,
    pub location: Location,
}

/// An error of the given kind at the given place.
pub open spec fn error(kind: ErrorKind, location: Location) -> MacroError {
    MacroError { kind, location }
}

/// What the expansion of an item comes to.
pub enum Outcome {
    /// The generated code.
    Code(Seq<char>),
    /// The item is refused with an error.
    Refused(MacroError),
    /// The item holds something the expansion does not support yet.
    Unsupported,
}

/// The message reported for each kind of error.
pub open spec fn message_text(kind: ErrorKind) -> Seq<char> {
    match kind {
        ErrorKind::InvalidItemKind => "`[placing, E0001] invalid item kind: macro `placing` can only be used on inherent impls and structs"@,
        ErrorKind::TraitImpl => "`[spati, E0002] trait impls unsupported: macro `spati` can only be used on bare `impl {}` blocks"@,
        ErrorKind::InvalidImplTarget => "[E0003, spati] invalid impl target: `spati` doesn't work for impls on tuples, slices, or other non-path types"@,
        ErrorKind::InvalidAttr => "[E0004, spati] invalid attr: the #[placing] attribute does not support any additional arguments"@,
        ErrorKind::EmptyConstructor => "[E0005, spati] empty constructor body: functions marked `#[placing]` cannot be empty"@,
        ErrorKind::InvalidConstructorBody => "[E0006, spati] invalid constructor body: functions marked `#[placing]` have to end with a struct expression"@,
        ErrorKind::UnsupportedPointerBody => "[E0006, spati] invalid constructor body: functions marked `#[placing]` can only end with a fixed set of expressions"@,
        ErrorKind::InvalidPlacingTarget => "[E0007, spati] invalid super target: the #[placing] attribute cannot be applied to static functions"@,
        ErrorKind::InvalidPointerConstructor => "[E0008, spati] invalid pointer constructor"@,
        ErrorKind::InvalidPointerArgument => "[E0008, spati] invalid pointer constructor`"@,
        ErrorKind::InvalidFieldType => "[E0010, placing] invalid `#[placing]` target type"@,
    }
}

impl MacroError {
    /// The message to report for this error.
    pub fn message(&self) -> (r: String)
        ensures
            r@ == message_text(self.kind),
    {
        match self.kind {
            ErrorKind::InvalidItemKind => String::from_str("`[placing, E0001] invalid item kind: macro `placing` can only be used on inherent impls and structs"),
            ErrorKind::TraitImpl => String::from_str("`[spati, E0002] trait impls unsupported: macro `spati` can only be used on bare `impl {}` blocks"),
            ErrorKind::InvalidImplTarget => String::from_str("[E0003, spati] invalid impl target: `spati` doesn't work for impls on tuples, slices, or other non-path types"),
            ErrorKind::InvalidAttr => String::from_str("[E0004, spati] invalid attr: the #[placing] attribute does not support any additional arguments"),
            ErrorKind::EmptyConstructor => String::from_str("[E0005, spati] empty constructor body: functions marked `#[placing]` cannot be empty"),
            ErrorKind::InvalidConstructorBody => String::from_str("[E0006, spati] invalid constructor body: functions marked `#[placing]` have to end with a struct expression"),
            ErrorKind::UnsupportedPointerBody => String::from_str("[E0006, spati] invalid constructor body: functions marked `#[placing]` can only end with a fixed set of expressions"),
            ErrorKind::InvalidPlacingTarget => String::from_str("[E0007, spati] invalid super target: the #[placing] attribute cannot be applied to static functions"),
            ErrorKind::InvalidPointerConstructor => String::from_str("[E0008, spati] invalid pointer constructor"),
            ErrorKind::InvalidPointerArgument => String::from_str("[E0008, spati] invalid pointer constructor`"),
            ErrorKind::InvalidFieldType => String::from_str("[E0010, placing] invalid `#[placing]` target type"),
        }
    }
}

} // verus!
