//! A prototype notation for referentially stable constructors.
//!
//! `#[placing]` on a struct turns it into a place that can be filled after it
//! has been put where it lives; `#[placing]` on its impl block splits each
//! constructor marked `#[placing]` into `<name>_uninit`, which makes the place,
//! and `<name>_init`, which writes the fields into it.
//!
//! The expansion works on a model of the annotated item (`model`) and writes
//! the generated code out as source text.
pub mod attrs;
pub mod constructor;
pub mod error;
pub mod fn_kind;
pub mod generics;
pub mod inherent;
pub mod laws;
pub mod model;
pub mod render;
pub mod strukt;
pub mod text;
pub mod tokens;

use vstd::prelude::*;
use crate::error::{error, ErrorKind, Location, MacroError, Outcome};
use crate::inherent::{impl_is_supported, impl_outcome, process_impl};
use crate::model::Item;
use crate::strukt::{process_struct, struct_is_supported, struct_outcome};
use crate::tokens::lex;
use proc_macro2::{LexError, TokenStream};

verus! {

/// What the expansion of an annotated item comes to.
pub open spec fn placing_outcome(item: Item) -> Outcome {
    match item {
        Item::Impl(i) => impl_outcome(i),
        Item::Struct(s) => struct_outcome(s),
        Item::Other => Outcome::Refused(error(ErrorKind::InvalidItemKind, Location::CallSite)),
    }
}

/// Whether the expansion of an item stays clear of what it does not support yet.
pub fn is_supported(item: &Item) -> (r: bool)
    ensures
        r == !(placing_outcome(*item) is Unsupported),
{
    match item {
        Item::Impl(i) => impl_is_supported(i),
        Item::Struct(s) => struct_is_supported(s),
        Item::Other => true,
    }
}

/// Enable methods to be constructed and operate in-place: the expansion of the
/// item the attribute is placed on, as source text, or the error to report.
pub fn placing(item: Item) -> (r: Result<String, MacroError>)
    requires
        !(placing_outcome(item) is Unsupported),
    ensures
        match placing_outcome(item) {
            Outcome::Code(c) => r matches Ok(t) && t@ == c,
            Outcome::Refused(e) => r == Err::<String, MacroError>(e),
            Outcome::Unsupported => false,
        },
{
    match item {
        Item::Impl(i) => process_impl(i),
        Item::Struct(s) => process_struct(s),
        Item::Other => Err(MacroError { kind: ErrorKind::InvalidItemKind, location: Location::CallSite }),
    }
}

/// Why an expansion gives no tokens.
pub enum ExpansionError {
    /// The item is refused.
    Refused(MacroError),
    /// The generated text does not lex.
    Lex(LexError),
}

/// The expansion of an item as tokens: `placing`'s text, lexed.
pub fn expand(item: Item) -> (r: Result<TokenStream, ExpansionError>)
    requires
        !(placing_outcome(item) is Unsupported),
    ensures
        match placing_outcome(item) {
            Outcome::Code(_) => r is Ok || r matches Err(ExpansionError::Lex(_)),
            Outcome::Refused(e) => r matches Err(ExpansionError::Refused(x)) && x == e,
            Outcome::Unsupported => false,
        },
{
    match placing(item) {
        Ok(code) => match lex(&code) {
            Ok(tokens) => Ok(tokens),
            Err(e) => Err(ExpansionError::Lex(e)),
        },
        Err(e) => Err(ExpansionError::Refused(e)),
    }
}

} // verus!
