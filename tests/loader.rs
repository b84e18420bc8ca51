use sable::cache::{is_valid_location, ModuleCache};
use sable::loader::{
    LoadAction, LoadErrorKind, LoadPolicy, LoadStage, LocalFailure, RemoteBody, RequestedKind,
    SableOptions, TsModuleLoader,
};
use sable::runtime_state::RuntimeState;
use sable::media::LanguageKind;
use sable::specifier::{ModuleSpecifier, ResolveError};

fn loader(policy: LoadPolicy) -> TsModuleLoader {
    TsModuleLoader {
        cache: ModuleCache::new("/tmp/sable-cache".to_string()),
        policy,
        cwd: "file:///work/".to_string(),
    }
}

fn default_policy() -> LoadPolicy {
    LoadPolicy { reload_cache: false, clean_cache: false }
}

fn spec(loader: &TsModuleLoader, s: &str) -> ModuleSpecifier {
    loader.resolve(s, "").ok().expect("resolves")
}

fn remote(body: &[u8], content_type: Option<&str>) -> RemoteBody {
    RemoteBody { body: body.to_vec(), content_type: content_type.map(|c| c.to_string()) }
}

#[test]
fn remote_typescript_is_fetched_cached_and_then_reused() {
    let l = loader(default_policy());
    let m = spec(&l, "https://example.test/mod.ts");
    let source = b"const answer: number = 42;\nexport default answer;\n";

    let mut first = l.load(&m, RequestedKind::Script);
    let entry = match first.begin() {
        LoadAction::ReadCache { path } => path,
        _ => panic!("a network module is first looked up in the cache"),
    };
    assert_eq!(entry, "/tmp/sable-cache/https/example.test_/mod.ts_f");
    match first.on_cache(None) {
        LoadAction::Fetch { url } => assert_eq!(url, "https://example.test/mod.ts"),
        _ => panic!("a cache miss goes to the network"),
    }
    let (first_code, stored) = match first.on_fetched(Ok(remote(source, None))) {
        LoadAction::Finish { result, store } => {
            let module = result.ok().expect("loads");
            assert_eq!(module.kind, LanguageKind::TypeScript);
            (module.code, store.expect("fresh network content is cached"))
        },
        _ => panic!("the load ends after the fetch"),
    };
    assert_eq!(stored.path, entry);
    assert_eq!(stored.bytes, source.to_vec());
    let text = String::from_utf8(first_code.clone()).unwrap();
    assert!(text.contains("const answer = 42"));
    assert!(!text.contains(": number"));
    assert_eq!(first.stage(), LoadStage::Done);

    let mut second = l.load(&m, RequestedKind::Script);
    match second.begin() {
        LoadAction::ReadCache { path } => assert_eq!(path, entry),
        _ => panic!("the second load looks in the cache"),
    }
    match second.on_cache(Some(stored.bytes.clone())) {
        LoadAction::Finish { result, store } => {
            assert!(store.is_none());
            let module = result.ok().expect("loads from the cache");
            assert_eq!(module.kind, LanguageKind::TypeScript);
            assert_eq!(module.code, first_code);
        },
        _ => panic!("a cache hit ends the load without the network"),
    }
}

#[test]
fn local_javascript_is_read_and_passed_through() {
    let l = loader(default_policy());
    let m = spec(&l, "file:///tmp/x.js");
    let mut load = l.load(&m, RequestedKind::Script);
    match load.begin() {
        LoadAction::ReadFile { path } => assert_eq!(path, "/tmp/x.js"),
        _ => panic!("a local module is read from disk"),
    }
    let source = b"console.log(1 as number)".to_vec();
    match load.on_read(Ok(source.clone())) {
        LoadAction::Finish { result, store } => {
            assert!(store.is_none());
            let module = result.ok().expect("loads");
            assert_eq!(module.kind, LanguageKind::JavaScript);
            assert_eq!(module.code, source);
        },
        _ => panic!("the load ends after the read"),
    }
}

#[test]
fn local_read_failures_are_reported() {
    let l = loader(default_policy());
    let m = spec(&l, "./missing.ts");
    let mut load = l.load(&m, RequestedKind::Script);
    match load.begin() {
        LoadAction::ReadFile { path } => assert_eq!(path, "/work/missing.ts"),
        _ => panic!("a local module is read from disk"),
    }
    match load.on_read(Err(LocalFailure::NotFound)) {
        LoadAction::Finish { result: Err(e), store: None } => {
            assert_eq!(e.kind, LoadErrorKind::NotFound)
        },
        _ => panic!("a missing file fails the load"),
    }
    let mut again = l.load(&m, RequestedKind::Script);
    again.begin();
    match again.on_read(Err(LocalFailure::Io)) {
        LoadAction::Finish { result: Err(e), store: None } => assert_eq!(e.kind, LoadErrorKind::Io),
        _ => panic!("an unreadable file fails the load"),
    }
}

#[test]
fn remote_json_needs_the_json_attribute() {
    let l = loader(LoadPolicy { reload_cache: true, clean_cache: false });
    let m = spec(&l, "https://example.test/data.json");
    let body = b"{\"a\": 1}";

    let mut plain = l.load(&m, RequestedKind::Script);
    plain.begin();
    match plain.on_fetched(Ok(remote(body, Some("application/json")))) {
        LoadAction::Finish { result: Err(e), store } => {
            assert_eq!(e.kind, LoadErrorKind::ModuleKindMismatch);
            assert!(e.message.contains("with { type: \"json\" }"));
            assert!(store.is_some());
        },
        _ => panic!("JSON without the attribute fails"),
    }

    let mut json = l.load(&m, RequestedKind::Json);
    json.begin();
    match json.on_fetched(Ok(remote(body, None))) {
        LoadAction::Finish { result, .. } => {
            let module = result.ok().expect("loads");
            assert_eq!(module.kind, LanguageKind::Json);
            assert_eq!(module.code, body.to_vec());
        },
        _ => panic!("the load ends after the fetch"),
    }
}

#[test]
fn reload_skips_the_cache_and_rewrites_the_entry() {
    let l = loader(LoadPolicy { reload_cache: true, clean_cache: false });
    let m = spec(&l, "https://example.test/lib.js");
    let mut load = l.load(&m, RequestedKind::Script);
    match load.begin() {
        LoadAction::Fetch { url } => assert_eq!(url, "https://example.test/lib.js"),
        _ => panic!("reloading goes straight to the network"),
    }
    match load.on_fetched(Ok(remote(b"export const v = 2;", None))) {
        LoadAction::Finish { result, store } => {
            let write = store.expect("the entry is rewritten");
            assert_eq!(write.path, "/tmp/sable-cache/https/example.test_/lib.js_f");
            assert_eq!(write.scratch, "/tmp/sable-cache/.scratch/https/example.test_/lib.js_f");
            assert_eq!(write.bytes, b"export const v = 2;".to_vec());
            assert_eq!(result.ok().expect("loads").code, b"export const v = 2;".to_vec());
        },
        _ => panic!("the load ends after the fetch"),
    }
}

#[test]
fn clean_policy_clears_the_cache_first() {
    assert!(LoadPolicy { reload_cache: false, clean_cache: true }.clears_cache_first());
    assert!(!default_policy().clears_cache_first());
    let l = loader(LoadPolicy { reload_cache: false, clean_cache: true });
    let m = spec(&l, "https://example.test/lib.js");
    let mut load = l.load(&m, RequestedKind::Script);
    assert!(matches!(load.begin(), LoadAction::ReadCache { .. }));
    assert!(matches!(load.on_cache(None), LoadAction::Fetch { .. }));
}

#[test]
fn failed_fetch_fails_the_load_and_caches_nothing() {
    let l = loader(default_policy());
    let m = spec(&l, "http://example.test/a.js");
    let mut load = l.load(&m, RequestedKind::Script);
    load.begin();
    load.on_cache(None);
    match load.on_fetched(Err("404 Not Found".to_string())) {
        LoadAction::Finish { result: Err(e), store: None } => {
            assert_eq!(e.kind, LoadErrorKind::FetchFailed);
            assert_eq!(e.message, "404 Not Found");
        },
        _ => panic!("a failed fetch fails the load"),
    }
}

#[test]
fn unknown_language_is_unsupported() {
    let l = loader(default_policy());
    let m = spec(&l, "https://example.test/style.css");
    let mut load = l.load(&m, RequestedKind::Script);
    load.begin();
    load.on_cache(None);
    match load.on_fetched(Ok(remote(b"body {}", Some("text/css")))) {
        LoadAction::Finish { result: Err(e), store } => {
            assert_eq!(e.kind, LoadErrorKind::UnsupportedMediaType);
            assert!(store.is_some());
        },
        _ => panic!("an unsupported language fails the load"),
    }
}

#[test]
fn typescript_syntax_error_is_a_transpile_error() {
    let l = loader(default_policy());
    let m = spec(&l, "file:///tmp/broken.ts");
    let mut load = l.load(&m, RequestedKind::Script);
    load.begin();
    match load.on_read(Ok(b"let x: = ;".to_vec())) {
        LoadAction::Finish { result: Err(e), .. } => assert_eq!(e.kind, LoadErrorKind::Transpile),
        _ => panic!("a syntax error fails the load"),
    }
    let mut bad = l.load(&m, RequestedKind::Script);
    bad.begin();
    match bad.on_read(Ok(vec![0xff, 0xfe, 0x41])) {
        LoadAction::Finish { result: Err(e), .. } => assert_eq!(e.kind, LoadErrorKind::Transpile),
        _ => panic!("TypeScript that is not UTF-8 fails the load"),
    }
}

#[test]
fn jsx_is_transpiled_to_javascript() {
    let l = loader(default_policy());
    let m = spec(&l, "file:///tmp/view.jsx");
    let mut load = l.load(&m, RequestedKind::Script);
    load.begin();
    match load.on_read(Ok(b"export const v = <div>hi</div>;".to_vec())) {
        LoadAction::Finish { result, .. } => {
            let module = result.ok().expect("loads");
            assert_eq!(module.kind, LanguageKind::Jsx);
            let text = String::from_utf8(module.code).unwrap();
            assert!(!text.contains("<div>"));
        },
        _ => panic!("the load ends after the read"),
    }
}

#[test]
fn cache_locations_must_be_absolute_with_a_parent() {
    assert!(is_valid_location("/home/u/.cache/sable/modules"));
    assert!(!is_valid_location("/"));
    assert!(!is_valid_location("//"));
    assert!(!is_valid_location("relative/dir"));
    assert!(!is_valid_location(""));
    let cache = ModuleCache::new("/var/cache/sable".to_string());
    assert_eq!(cache.location(), "/var/cache/sable");
}

#[test]
fn cache_entries_are_distinct_per_specifier() {
    let l = loader(default_policy());
    let cache = ModuleCache::new("/c".to_string());
    let a = spec(&l, "https://example.test/a/b");
    let b = spec(&l, "https://example.test/a/b/");
    let c = spec(&l, "http://example.test/a/b");
    let d = spec(&l, "https://example.test/a?b");
    let paths: Vec<String> = [&a, &b, &c, &d].iter().map(|m| cache.entry_path(m)).collect();
    assert_eq!(paths[0], "/c/https/example.test_/a_/b_f");
    assert_eq!(paths[1], "/c/https/example.test_/a_/b_/_f");
    assert_eq!(paths[2], "/c/http/example.test_/a_/b_f");
    assert_eq!(paths[3], "/c/https/example.test_/a?b_f");
    for i in 0..paths.len() {
        for j in 0..paths.len() {
            assert_eq!(i == j, paths[i] == paths[j]);
        }
    }
    assert_eq!(cache.entry_path(&a), cache.entry_path(&a.clone()));
    let query = spec(&l, "https://example.test/x?q=/../../etc");
    assert_eq!(cache.entry_path(&query), "/c/https/example.test_/x?q=_/.._/.._/etc_f");
}

#[test]
fn resolution_is_deterministic() {
    let l = loader(default_policy());
    let first = l.resolve("./lib/../util.ts", "file:///project/src/main.ts").ok().unwrap();
    let second = l.resolve("./lib/../util.ts", "file:///project/src/main.ts").ok().unwrap();
    assert_eq!(first.as_str(), "file:///project/src/util.ts");
    assert_eq!(first.as_str(), second.as_str());
}

#[test]
fn resolution_cases() {
    let l = loader(default_policy());
    let r = l.resolve("../dep.js", "https://example.test/a/b/mod.ts").ok().unwrap();
    assert_eq!(r.as_str(), "https://example.test/a/dep.js");
    let abs = l.resolve("HTTPS://Example.TEST/%7efoo/./x.js", "file:///any.js").ok().unwrap();
    assert_eq!(abs.as_str(), "https://example.test/%7efoo/x.js");
    let entry = l.resolve("./main.ts", "").ok().unwrap();
    assert_eq!(entry.as_str(), "file:///work/main.ts");
    let rooted = l.resolve("/etc/x.js", "https://example.test/a/mod.ts").ok().unwrap();
    assert_eq!(rooted.as_str(), "https://example.test/etc/x.js");
    assert!(matches!(l.resolve("lodash", "file:///a.js"), Err(ResolveError::ImportPrefixMissing)));
    assert!(matches!(
        l.resolve("data:text/javascript,1", "file:///a.js"),
        Err(ResolveError::UnsupportedScheme)
    ));
    assert!(matches!(l.resolve("http://[::1", "file:///a.js"), Err(ResolveError::InvalidUrl)));
    assert!(matches!(l.resolve("./x.js", "not a url"), Err(ResolveError::InvalidBaseUrl)));
}

#[test]
fn run_options_give_the_cache_policy() {
    let options = SableOptions { clean_cache: true, reload_cache: false, state: RuntimeState::Test };
    let policy = options.policy();
    assert!(policy.clean_cache);
    assert!(!policy.reload_cache);
    assert!(policy.clears_cache_first());
}

#[test]
fn file_url_with_a_remote_host_has_no_local_path() {
    let l = loader(default_policy());
    let m = spec(&l, "file://fileserver/share/x.js");
    let mut load = l.load(&m, RequestedKind::Script);
    match load.begin() {
        LoadAction::Finish { result: Err(e), store: None } => {
            assert_eq!(e.kind, LoadErrorKind::InvalidFilePath)
        },
        _ => panic!("a file URL with a remote host cannot be read"),
    }
    assert_eq!(load.stage(), LoadStage::Done);
}
