//! The two identifier grammars: that of the managed language, which `syn`
//! decides, and the narrower one of the bridge layer. Also the reading of
//! the arguments of annotations as identifiers and as string literals, for
//! which `syn` is asked too.
//!
//! `syn` is only asked about texts that it is safe to ask about: each of
//! the two parsers has a test that goes before it, and a text that fails
//! the test is read as nothing.

use crate::errors::ConvertError;
use crate::text::{contains, occurs_in, same_text, starts_with};
use vstd::prelude::*;

verus! {

/// The greatest number of opening brackets in a text that is handed to the
/// parser. The parser keeps one stack frame for each level of nested
/// brackets, and a text nests no deeper than it has opening brackets.
pub const MAX_NESTING: usize = 64;

/// `c` opens a bracketed group.
pub open spec fn is_open_bracket(c: char) -> bool {
    c == '(' || c == '[' || c == '{'
}

/// How many characters of `text` open a bracketed group.
pub open spec fn open_brackets(text: Seq<char>) -> nat
    decreases text.len(),
{
    if text.len() == 0 {
        0
    } else {
        open_brackets(text.drop_last()) + if is_open_bracket(text.last()) {
            1nat
        } else {
            0nat
        }
    }
}

/// `text` is handed to the parser of identifiers: it has no more opening
/// brackets than [`MAX_NESTING`].
pub open spec fn ident_admitted(text: Seq<char>) -> bool {
    open_brackets(text) <= MAX_NESTING
}

/// `text` is handed to the parser of string literals: it begins with the
/// quote of a string literal or with the `r` of a raw one, and it has no
/// more opening brackets than [`MAX_NESTING`]. Any other text is no string
/// literal without asking.
pub open spec fn literal_admitted(text: Seq<char>) -> bool {
    &&& text.len() > 0
    &&& text[0] == '"' || text[0] == 'r'
    &&& open_brackets(text) <= MAX_NESTING
}

/// What `syn::parse_str::<syn::Ident>` makes of `text`: the text of the
/// identifier it read, or `None` where it rejects `text`. This is a
/// function of the text as long as `proc-macro2` lexes with its own lexer,
/// which it does in every process that is not a procedural macro and has
/// not switched the lexer by `proc_macro2::fallback`.
pub uninterp spec fn syn_ident(text: Seq<char>) -> Option<Seq<char>>;

/// What `syn::parse_str::<syn::LitStr>` followed by `LitStr::value` makes of
/// `text`: the string that the literal denotes, or `None` where `text` is not
/// one string literal. This is a function of the text as long as
/// `proc-macro2` lexes with its own lexer, which it does in every process
/// that is not a procedural macro and has not switched the lexer by
/// `proc_macro2::fallback`.
pub uninterp spec fn syn_str_literal(text: Seq<char>) -> Option<Seq<char>>;

/// Parses `text` as a single identifier with `syn::parse_str::<syn::Ident>`
/// and returns the identifier's text (`Ident::to_string`). Nothing is claimed
/// about which texts are accepted: the result is named, not described. The
/// bound on opening brackets keeps the parser's recursion shallow.
#[verifier::external_body]
pub(crate) fn parse_ident(text: &str) -> (r: Option<String>)
    requires
        ident_admitted(text@),
    ensures
        r.deep_view() == syn_ident(text@),
{
    match syn::parse_str::<syn::Ident>(text) {
        Ok(ident) => Some(ident.to_string()),
        Err(_) => None,
    }
}

/// Parses `text` as a single string literal with
/// `syn::parse_str::<syn::LitStr>` and returns what the literal denotes
/// (`LitStr::value`). The result is named, not described. The parser is
/// only asked about a text that begins like a string literal: on a first
/// token that is a literal of a kind it does not know (a C string, say) it
/// would not return. The bound on opening brackets keeps its recursion
/// shallow.
#[verifier::external_body]
pub(crate) fn parse_str_literal(text: &str) -> (r: Option<String>)
    requires
        literal_admitted(text@),
    ensures
        r.deep_view() == syn_str_literal(text@),
{
    match syn::parse_str::<syn::LitStr>(text) {
        Ok(literal) => Some(literal.value()),
        Err(_) => None,
    }
}

/// The identifier that `text` is read as: what the parser makes of it, and
/// nothing where the text is not handed to the parser.
pub open spec fn ident_read(text: Seq<char>) -> Option<Seq<char>> {
    if ident_admitted(text) {
        syn_ident(text)
    } else {
        None
    }
}

/// The string that `text` denotes as a string literal: what the parser
/// makes of it, and nothing where the text is not handed to the parser.
pub open spec fn str_literal_read(text: Seq<char>) -> Option<Seq<char>> {
    if literal_admitted(text) {
        syn_str_literal(text)
    } else {
        None
    }
}

/// Whether `text` has no more opening brackets than [`MAX_NESTING`].
pub fn has_bounded_nesting(text: &str) -> (r: bool)
    ensures
        r == (open_brackets(text@) <= MAX_NESTING),
{
    let n = text.unicode_len();
    let mut count: usize = 0;
    let mut i: usize = 0;
    assert(text@.take(0) =~= Seq::<char>::empty());
    while i < n
        invariant
            n == text@.len(),
            i <= n,
            count <= i,
            count == open_brackets(text@.take(i as int)),
        decreases n - i,
    {
        assert(text@.take(i + 1).drop_last() =~= text@.take(i as int));
        assert(text@.take(i + 1).last() == text@[i as int]);
        let c = text.get_char(i);
        if c == '(' || c == '[' || c == '{' {
            count += 1;
        }
        i += 1;
    }
    assert(text@.take(n as int) =~= text@);
    count <= MAX_NESTING
}

/// Whether `text` is handed to the parser of string literals.
pub fn is_literal_admitted(text: &str) -> (r: bool)
    ensures
        r == literal_admitted(text@),
{
    if text.unicode_len() == 0 {
        return false;
    }
    let first = text.get_char(0);
    (first == '"' || first == 'r') && has_bounded_nesting(text)
}

/// Reads `text` as a single identifier: the identifier's text, or `None`
/// where `text` is none.
pub fn read_ident(text: &str) -> (r: Option<String>)
    ensures
        r.deep_view() == ident_read(text@),
{
    if has_bounded_nesting(text) {
        parse_ident(text)
    } else {
        None
    }
}

/// Reads `text` as a single string literal: the string that it denotes, or
/// `None` where `text` is none.
pub fn read_str_literal(text: &str) -> (r: Option<String>)
    ensures
        r.deep_view() == str_literal_read(text@),
{
    if is_literal_admitted(text) {
        parse_str_literal(text)
    } else {
        None
    }
}

/// The grammar of the managed language: `name` is exactly one identifier,
/// and not a reserved word.
pub open spec fn is_rust_ident(name: Seq<char>) -> bool {
    ident_read(name) == Some(name)
}

/// The grammar of the bridge layer: an identifier of the managed language
/// that holds no double underscore and does not look like the name of an
/// anonymous type.
pub open spec fn is_cxx_ident(name: Seq<char>) -> bool {
    &&& is_rust_ident(name)
    &&& !occurs_in(name, "__"@)
    &&& !"_bindgen_ty_"@.is_prefix_of(name)
}

/// Whether `name` is in the grammar of the managed language, given what the
/// identifier parser made of it.
pub fn rust_ident_verdict(name: &str, parsed: &Option<String>) -> (ok: bool)
    ensures
        ok == (parsed.deep_view() == Some(name@)),
{
    match parsed {
        Some(text) => same_text(text.as_str(), name),
        None => false,
    }
}

/// Whether `name` is in the grammar of the bridge layer, given what the
/// identifier parser made of it.
pub fn cxx_ident_verdict(name: &str, parsed: &Option<String>) -> (ok: bool)
    ensures
        ok == (parsed.deep_view() == Some(name@) && !occurs_in(name@, "__"@)
            && !"_bindgen_ty_"@.is_prefix_of(name@)),
{
    rust_ident_verdict(name, parsed) && !contains(name, "__") && !starts_with(
        name,
        "_bindgen_ty_",
    )
}

/// Whether `name` is an identifier of the managed language.
pub fn is_ident_ok_for_rust(name: &str) -> (ok: bool)
    ensures
        ok == is_rust_ident(name@),
{
    let parsed = read_ident(name);
    rust_ident_verdict(name, &parsed)
}

/// Accepts `name` if it is an identifier of the managed language.
pub fn validate_ident_ok_for_rust(name: &str) -> (r: Result<(), ConvertError>)
    ensures
        r is Ok <==> is_rust_ident(name@),
        r is Err ==> r->Err_0@ == invalid_identifier(name@),
{
    if is_ident_ok_for_rust(name) {
        Ok(())
    } else {
        Err(ConvertError::InvalidIdentifier(String::from_str(name)))
    }
}

/// The model of the error that reports `name` as no identifier.
pub open spec fn invalid_identifier(name: Seq<char>) -> crate::errors::ConvertErrorView {
    crate::errors::ConvertErrorView::InvalidIdentifier(name)
}

/// Accepts `name` if it is an identifier of the bridge layer.
pub fn validate_ident_ok_for_cxx(name: &str) -> (r: Result<(), ConvertError>)
    ensures
        r is Ok <==> is_cxx_ident(name@),
        r is Err ==> r->Err_0@ == invalid_identifier(name@),
{
    let parsed = read_ident(name);
    if cxx_ident_verdict(name, &parsed) {
        Ok(())
    } else {
        Err(ConvertError::InvalidIdentifier(String::from_str(name)))
    }
}

} // verus!
