use sable::media::{classify, language_of_media, media_kind_from_name, LanguageKind, MediaKind};
use sable::specifier::{resolve_import, Scheme};

fn kind(url: &str, content_type: Option<&str>) -> LanguageKind {
    let m = resolve_import(url, "", "file:///").ok().expect("resolves");
    classify(&m, content_type)
}

#[test]
fn extensions_name_languages() {
    assert_eq!(kind("file:///a/b.js", None), LanguageKind::JavaScript);
    assert_eq!(kind("file:///a/b.mjs", None), LanguageKind::JavaScript);
    assert_eq!(kind("file:///a/b.jsx", None), LanguageKind::Jsx);
    assert_eq!(kind("file:///a/b.ts", None), LanguageKind::TypeScript);
    assert_eq!(kind("file:///a/b.mts", None), LanguageKind::TypeScript);
    assert_eq!(kind("file:///a/types.d.ts", None), LanguageKind::TypeScript);
    assert_eq!(kind("file:///a/b.tsx", None), LanguageKind::Tsx);
    assert_eq!(kind("file:///a/b.json", None), LanguageKind::Json);
    assert_eq!(kind("file:///a/b.jsonc", None), LanguageKind::Json);
    assert_eq!(kind("file:///a/b.css", None), LanguageKind::Unsupported);
    assert_eq!(kind("file:///a/.js", None), LanguageKind::JavaScript);
    assert_eq!(kind("https://host/MOD.TS", None), LanguageKind::TypeScript);
    assert_eq!(kind("file:///a/b.cjs", None), LanguageKind::Unsupported);
    assert_eq!(kind("file:///a/b.d.mts", None), LanguageKind::TypeScript);
    assert_eq!(kind("file:///a.b/c", None), LanguageKind::Unsupported);
}

#[test]
fn query_and_fragment_do_not_count() {
    assert_eq!(kind("https://x.test/a.js?v=b.ts", None), LanguageKind::JavaScript);
    assert_eq!(kind("https://x.test/a.ts#b.json", None), LanguageKind::TypeScript);
    assert_eq!(kind("https://x.test.js", None), LanguageKind::Unsupported);
}

#[test]
fn content_type_is_used_for_network_modules_only() {
    assert_eq!(
        kind("https://x.test/mod", Some("text/TypeScript; charset=utf-8")),
        LanguageKind::TypeScript
    );
    assert_eq!(kind("https://x.test/mod", Some("application/javascript")), LanguageKind::JavaScript);
    assert_eq!(kind("https://x.test/mod", Some("text/jsx")), LanguageKind::Jsx);
    assert_eq!(kind("https://x.test/mod", Some("text/tsx")), LanguageKind::Tsx);
    assert_eq!(kind("https://x.test/mod", Some("application/json")), LanguageKind::Json);
    assert_eq!(kind("https://x.test/mod", Some("text/html")), LanguageKind::Unsupported);
    assert_eq!(kind("https://x.test/mod", None), LanguageKind::Unsupported);
    assert_eq!(kind("https://x.test/a.js", Some("application/json")), LanguageKind::JavaScript);
    assert_eq!(kind("file:///mod", Some("application/javascript")), LanguageKind::Unsupported);
}

#[test]
fn content_types_follow_deno() {
    assert_eq!(kind("https://x.test/mod", Some("application/ld+json")), LanguageKind::Json);
    assert_eq!(kind("https://x.test/mod", Some("application/node")), LanguageKind::JavaScript);
    assert_eq!(kind("https://x.test/mod", Some("text/jscript")), LanguageKind::Jsx);
    assert_eq!(kind("https://x.test/mod", Some("video/mp2t")), LanguageKind::TypeScript);
    assert_eq!(kind("https://x.test/mod", Some(" Text/JavaScript ; charset=utf-8")), LanguageKind::JavaScript);
    assert_eq!(kind("https://x.test/mod", Some("text/ java script")), LanguageKind::Unsupported);
}

#[test]
fn media_type_names() {
    assert_eq!(media_kind_from_name("TSX"), MediaKind::Tsx);
    assert_eq!(media_kind_from_name("Dts"), MediaKind::Dts);
    assert_eq!(media_kind_from_name("Jsonc"), MediaKind::Jsonc);
    assert_eq!(media_kind_from_name("Nonsense"), MediaKind::Unknown);
    assert_eq!(language_of_media(MediaKind::Dts), LanguageKind::TypeScript);
    assert_eq!(language_of_media(MediaKind::Cts), LanguageKind::Unsupported);
    assert_eq!(language_of_media(MediaKind::Jsonc), LanguageKind::Json);
}

#[test]
fn schemes_are_recognised() {
    let m = resolve_import("https://x.test/a.js", "", "file:///").ok().unwrap();
    assert_eq!(m.scheme(), Scheme::Https);
    assert!(m.is_network());
    let f = resolve_import("file:///a.js", "", "file:///").ok().unwrap();
    assert_eq!(f.scheme(), Scheme::File);
    assert!(!f.is_network());
    assert_eq!(f.to_file_path(), Some("/a.js".to_string()));
}
