//! Checking generated source text with a full Rust parser.
use vstd::prelude::*;

verus! {

/// Whether the text parses as a whole source file.
pub uninterp spec fn source_parses(text: Seq<char>) -> bool;

/// The parser's message on text that does not parse as a source file.
pub uninterp spec fn parse_error_text(text: Seq<char>) -> Seq<char>;

/// Whether the text parses as a type.
pub uninterp spec fn type_parses(text: Seq<char>) -> bool;

/// Whether the text parses as an expression.
pub uninterp spec fn expr_parses(text: Seq<char>) -> bool;

/// Relies on syn::parse_file, which parses the text as a whole file or returns a
/// syn::Error whose `Display` text is its message.
#[verifier::external_body]
pub(crate) fn check_source(text: &str) -> (r: Result<(), String>)
    ensures
        r is Ok <==> source_parses(text@),
        r matches Err(m) ==> m@ == parse_error_text(text@),
{
    match syn::parse_file(text) {
        Ok(_) => Ok(()),
        Err(e) => Err(e.to_string()),
    }
}

/// Relies on syn::parse_str::<syn::Type>, which succeeds exactly when the text is one
/// type.
#[verifier::external_body]
pub(crate) fn is_type(text: &str) -> (r: bool)
    ensures
        r == type_parses(text@),
{
    syn::parse_str::<syn::Type>(text).is_ok()
}

/// Relies on syn::parse_str::<syn::Expr>, which succeeds exactly when the text is one
/// expression.
#[verifier::external_body]
pub(crate) fn is_expr(text: &str) -> (r: bool)
    ensures
        r == expr_parses(text@),
{
    syn::parse_str::<syn::Expr>(text).is_ok()
}

} // verus!
