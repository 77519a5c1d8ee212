//! Turning the generated source text into tokens, with `proc_macro2`'s lexer.
use vstd::prelude::*;
use proc_macro2::{LexError, TokenStream};

verus! {

/// `proc_macro2::TokenStream`, carried through as an opaque value.
#[verifier::external_type_specification]
#[verifier::external_body]
pub struct ExTokenStream(TokenStream);

/// `proc_macro2::LexError`, carried through as an opaque value.
#[verifier::external_type_specification]
#[verifier::external_body]
pub struct ExLexError(LexError);

/// Lexes `text` with `<proc_macro2::TokenStream as FromStr>::from_str`.
///
/// Nothing is claimed of the outcome: inside a procedural macro the compiler's
/// lexer decides, elsewhere `proc_macro2`'s own, and the tokens carry spans of
/// the macro call they are made in.
#[verifier::external_body]
pub(crate) fn lex(text: &String) -> (r: Result<TokenStream, LexError>) {
    text.parse::<TokenStream>()
}

} // verus!
