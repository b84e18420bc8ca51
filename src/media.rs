//! Classification of a module's language from its URL and its declared content type. The
//! media type itself comes from deno_ast; this module decides which of them the runtime
//! loads, and when the declared content type is consulted.
use crate::specifier::{is_network, ModuleSpecifier};
use deno_ast::MediaType as M;
use crate::text::{chars_of, range_is};
use vstd::prelude::*;

verus! {

/// The language of a module's source text.
#[derive(Clone, Copy, Debug, PartialEq, Eq, Structural)]
pub enum LanguageKind {
    JavaScript,
    TypeScript,
    Jsx,
    Tsx,
    Json,
    Unsupported,
}

impl LanguageKind {
    /// Whether source of this kind is handed to the transpiler before execution.
    pub open spec fn spec_needs_transpile(self) -> bool {
        self is TypeScript || self is Jsx || self is Tsx
    }

    pub fn needs_transpile(&self) -> (r: bool)
        ensures
            r == self.spec_needs_transpile(),
    {
        match self {
            LanguageKind::TypeScript | LanguageKind::Jsx | LanguageKind::Tsx => true,
            _ => false,
        }
    }
}

/// The media types that deno_ast tells apart, one for each variant of `deno_ast::MediaType`.
#[derive(Clone, Copy, Debug, PartialEq, Eq, Structural)]
pub enum MediaKind {
    JavaScript,
    Jsx,
    Mjs,
    Cjs,
    TypeScript,
    Mts,
    Cts,
    Dts,
    Dmts,
    Dcts,
    Tsx,
    Css,
    Json,
    Jsonc,
    Json5,
    Html,
    Markdown,
    Sql,
    Wasm,
    SourceMap,
    Unknown,
}

/// The name under which `deno_ast::MediaType`'s `Display` writes the media type that
/// `MediaType::from_specifier` gives for the URL `href`.
pub uninterp spec fn media_type_name_of_specifier(href: Seq<char>) -> Seq<char>;

/// The name under which `deno_ast::MediaType`'s `Display` writes the media type that
/// `MediaType::from_content_type` gives for the URL `href` served as `content_type`.
pub uninterp spec fn media_type_name_of_content_type(href: Seq<char>, content_type: Seq<char>) -> Seq<
    char,
>;

/// Relies on `deno_ast::MediaType::from_specifier` on the URL that `url::Url::parse` gives,
/// written out by `MediaType`'s `Display`.
#[verifier::external_body]
fn media_type_from_specifier(href: &str) -> (r: String)
    ensures
        r@ == media_type_name_of_specifier(href@),
{
    match url::Url::parse(href) {
        Ok(u) => M::from_specifier(&u).to_string(),
        Err(_) => M::Unknown.to_string(),
    }
}

/// Relies on `deno_ast::MediaType::from_content_type` on the URL that `url::Url::parse`
/// gives, written out by `MediaType`'s `Display`.
#[verifier::external_body]
fn media_type_from_content_type(href: &str, content_type: &str) -> (r: String)
    ensures
        r@ == media_type_name_of_content_type(href@, content_type@),
{
    match url::Url::parse(href) {
        Ok(u) => M::from_content_type(&u, content_type).to_string(),
        Err(_) => M::Unknown.to_string(),
    }
}

/// The media type that `MediaType`'s `Display` writes as `name`.
pub open spec fn media_kind_named(name: Seq<char>) -> MediaKind {
    if name == "JavaScript"@ {
        MediaKind::JavaScript
    } else if name == "JSX"@ {
        MediaKind::Jsx
    } else if name == "Mjs"@ {
        MediaKind::Mjs
    } else if name == "Cjs"@ {
        MediaKind::Cjs
    } else if name == "TypeScript"@ {
        MediaKind::TypeScript
    } else if name == "Mts"@ {
        MediaKind::Mts
    } else if name == "Cts"@ {
        MediaKind::Cts
    } else if name == "Dts"@ {
        MediaKind::Dts
    } else if name == "Dmts"@ {
        MediaKind::Dmts
    } else if name == "Dcts"@ {
        MediaKind::Dcts
    } else if name == "TSX"@ {
        MediaKind::Tsx
    } else if name == "Css"@ {
        MediaKind::Css
    } else if name == "Json"@ {
        MediaKind::Json
    } else if name == "Jsonc"@ {
        MediaKind::Jsonc
    } else if name == "Json5"@ {
        MediaKind::Json5
    } else if name == "Html"@ {
        MediaKind::Html
    } else if name == "Markdown"@ {
        MediaKind::Markdown
    } else if name == "Sql"@ {
        MediaKind::Sql
    } else if name == "Wasm"@ {
        MediaKind::Wasm
    } else if name == "SourceMap"@ {
        MediaKind::SourceMap
    } else {
        MediaKind::Unknown
    }
}

/// The language that the runtime loads a media type as: `.js` and `.mjs` as JavaScript,
/// `.jsx` as JSX, `.ts`, `.mts` and declaration files as TypeScript, `.tsx` as TSX, `.json`
/// and `.jsonc` as JSON; nothing else is supported.
pub open spec fn language_of(m: MediaKind) -> LanguageKind {
    match m {
        MediaKind::JavaScript | MediaKind::Mjs => LanguageKind::JavaScript,
        MediaKind::Jsx => LanguageKind::Jsx,
        MediaKind::TypeScript | MediaKind::Mts | MediaKind::Dts | MediaKind::Dmts => LanguageKind::TypeScript,
        MediaKind::Tsx => LanguageKind::Tsx,
        MediaKind::Json | MediaKind::Jsonc => LanguageKind::Json,
        _ => LanguageKind::Unsupported,
    }
}

/// The language of the module at `href`: by deno_ast's media type for the URL, or else, for
/// a module fetched over the network, by the one for the content type that the server
/// declared.
pub open spec fn classification(href: Seq<char>, content_type: Option<Seq<char>>) -> LanguageKind {
    let by_specifier = language_of(media_kind_named(media_type_name_of_specifier(href)));
    if by_specifier == LanguageKind::Unsupported && is_network(href) && content_type is Some {
        language_of(media_kind_named(media_type_name_of_content_type(href, content_type->0)))
    } else {
        by_specifier
    }
}

/// The media type named `name`; see `media_kind_named`.
pub fn media_kind_from_name(name: &str) -> (r: MediaKind)
    ensures
        r == media_kind_named(name@),
{
    let v = chars_of(name);
    let n = v.len();
    assert(v@.subrange(0, n as int) =~= name@);
    if range_is(&v, 0, n, "JavaScript") {
        MediaKind::JavaScript
    } else if range_is(&v, 0, n, "JSX") {
        MediaKind::Jsx
    } else if range_is(&v, 0, n, "Mjs") {
        MediaKind::Mjs
    } else if range_is(&v, 0, n, "Cjs") {
        MediaKind::Cjs
    } else if range_is(&v, 0, n, "TypeScript") {
        MediaKind::TypeScript
    } else if range_is(&v, 0, n, "Mts") {
        MediaKind::Mts
    } else if range_is(&v, 0, n, "Cts") {
        MediaKind::Cts
    } else if range_is(&v, 0, n, "Dts") {
        MediaKind::Dts
    } else if range_is(&v, 0, n, "Dmts") {
        MediaKind::Dmts
    } else if range_is(&v, 0, n, "Dcts") {
        MediaKind::Dcts
    } else if range_is(&v, 0, n, "TSX") {
        MediaKind::Tsx
    } else if range_is(&v, 0, n, "Css") {
        MediaKind::Css
    } else if range_is(&v, 0, n, "Json") {
        MediaKind::Json
    } else if range_is(&v, 0, n, "Jsonc") {
        MediaKind::Jsonc
    } else if range_is(&v, 0, n, "Json5") {
        MediaKind::Json5
    } else if range_is(&v, 0, n, "Html") {
        MediaKind::Html
    } else if range_is(&v, 0, n, "Markdown") {
        MediaKind::Markdown
    } else if range_is(&v, 0, n, "Sql") {
        MediaKind::Sql
    } else if range_is(&v, 0, n, "Wasm") {
        MediaKind::Wasm
    } else if range_is(&v, 0, n, "SourceMap") {
        MediaKind::SourceMap
    } else {
        MediaKind::Unknown
    }
}

/// The language that the runtime loads a media type as; see `language_of`.
pub fn language_of_media(m: MediaKind) -> (r: LanguageKind)
    ensures
        r == language_of(m),
{
    match m {
        MediaKind::JavaScript | MediaKind::Mjs => LanguageKind::JavaScript,
        MediaKind::Jsx => LanguageKind::Jsx,
        MediaKind::TypeScript | MediaKind::Mts | MediaKind::Dts | MediaKind::Dmts => LanguageKind::TypeScript,
        MediaKind::Tsx => LanguageKind::Tsx,
        MediaKind::Json | MediaKind::Jsonc => LanguageKind::Json,
        _ => LanguageKind::Unsupported,
    }
}

/// The language of a module; see `classification`.
pub fn classify(specifier: &ModuleSpecifier, content_type: Option<&str>) -> (r: LanguageKind)
    ensures
        r == classification(specifier@, match content_type {
            Some(c) => Some(c@),
            None => None,
        }),
{
    let href = specifier.as_str();
    let by_specifier = language_of_media(media_kind_from_name(media_type_from_specifier(href).as_str()));
    match (by_specifier, content_type) {
        (LanguageKind::Unsupported, Some(c)) => if specifier.is_network() {
            let name = media_type_from_content_type(href, c);
            language_of_media(media_kind_from_name(name.as_str()))
        } else {
            by_specifier
        },
        _ => by_specifier,
    }
}

} // verus!
