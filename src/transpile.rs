//! The transpiler adapter: TypeScript and JSX go through the transpiler, the rest passes.
use crate::media::LanguageKind;
use deno_ast::{MediaType, ParseParams};
use vstd::prelude::*;
use vstd::slice::slice_to_vec;
use vstd::utf8::{decode_utf8, valid_utf8};

verus! {

/// The JavaScript that `deno_ast` emits for source `text` of language `kind` at `href`, as
/// UTF-8 bytes, or `None` where it reports a diagnostic.
pub uninterp spec fn transpile_output(href: Seq<char>, text: Seq<char>, kind: LanguageKind) -> Option<
    Seq<u8>,
>;

/// Relies on `deno_ast::parse_module` followed by `ParsedSource::transpile` with default
/// options; a failure of either yields its diagnostic text.
#[verifier::external_body]
fn transpile_text(href: &str, text: &str, kind: LanguageKind) -> (r: Result<Vec<u8>, String>)
    ensures
        match r {
            Ok(b) => transpile_output(href@, text@, kind) == Some(b@),
            Err(_) => transpile_output(href@, text@, kind) is None,
        },
{
    let media_type = match kind {
        LanguageKind::JavaScript => MediaType::JavaScript,
        LanguageKind::TypeScript => MediaType::TypeScript,
        LanguageKind::Jsx => MediaType::Jsx,
        LanguageKind::Tsx => MediaType::Tsx,
        LanguageKind::Json => MediaType::Json,
        LanguageKind::Unsupported => MediaType::Unknown,
    };
    let specifier = url::Url::parse(href).map_err(|e| e.to_string())?;
    let params = ParseParams { specifier, text: text.into(), media_type, capture_tokens: false, scope_analysis: false, maybe_syntax: None };
    let parsed = deno_ast::parse_module(params).map_err(|e| e.to_string())?;
    let emitted = parsed.transpile(&Default::default(), &Default::default(), &Default::default());
    Ok(emitted.map_err(|e| e.to_string())?.into_source().text.into_bytes())
}

/// Relies on `std::str::from_utf8`, which accepts exactly the valid UTF-8 byte sequences.
#[verifier::external_body]
fn utf8_text(bytes: &[u8]) -> (r: Option<String>)
    ensures
        match r {
            Some(s) => valid_utf8(bytes@) && s@ == decode_utf8(bytes@),
            None => !valid_utf8(bytes@),
        },
{
    std::str::from_utf8(bytes).ok().map(String::from)
}

/// Why source could not be made executable.
pub enum TranspileFailure {
    /// The source of a language that needs transpiling is not valid UTF-8.
    NotUtf8,
    /// The transpiler's diagnostic.
    Diagnostic(String),
}

/// The executable form of `source`, of language `kind`, at `href`: the transpiler's output
/// for TypeScript, JSX and TSX, the bytes unchanged for the rest.
pub open spec fn executable_code(href: Seq<char>, source: Seq<u8>, kind: LanguageKind) -> Option<
    Seq<u8>,
> {
    if kind.spec_needs_transpile() {
        if valid_utf8(source) {
            transpile_output(href, decode_utf8(source), kind)
        } else {
            None
        }
    } else {
        Some(source)
    }
}

/// Makes `source` executable; see `executable_code`.
pub fn maybe_transpile(href: &str, source: &[u8], kind: LanguageKind) -> (r: Result<
    Vec<u8>,
    TranspileFailure,
>)
    ensures
        match r {
            Ok(code) => executable_code(href@, source@, kind) == Some(code@),
            Err(_) => executable_code(href@, source@, kind) is None,
        },
{
    if !kind.needs_transpile() {
        return Ok(slice_to_vec(source));
    }
    match utf8_text(source) {
        None => Err(TranspileFailure::NotUtf8),
        Some(text) => match transpile_text(href, text.as_str(), kind) {
            Ok(code) => Ok(code),
            Err(diagnostic) => Err(TranspileFailure::Diagnostic(diagnostic)),
        },
    }
}

} // verus!
