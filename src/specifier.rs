//! Module specifiers: canonical absolute URLs, and their resolution from import text.
use crate::text::{chars_of, occurs_at};
use vstd::prelude::*;

verus! {

/// The URL schemes that modules may be loaded from.
#[derive(Clone, Copy, Debug, PartialEq, Eq, Structural)]
pub enum Scheme {
    File,
    Http,
    Https,
}

/// How the URL parser declined an input.
#[derive(Clone, Copy, Debug, PartialEq, Eq, Structural)]
pub enum UrlFailure {
    /// The input is relative and no base was given.
    RelativeWithoutBase,
    /// The base that a relative input was joined to is itself no URL.
    InvalidBase,
    /// Any other reason.
    Invalid,
}

/// Why an import could not be resolved to a module specifier.
#[derive(Clone, Copy, Debug, PartialEq, Eq, Structural)]
pub enum ResolveError {
    /// A relative import that starts with none of `/`, `./` and `../`.
    ImportPrefixMissing,
    /// The import is no valid URL, alone or joined to its base.
    InvalidUrl,
    /// The referrer (or the working directory) is no valid URL.
    InvalidBaseUrl,
    /// The resolved URL names a scheme other than `file`, `http` and `https`.
    UnsupportedScheme,
    /// The entry module's path gives no `file` URL (the working directory is not absolute).
    InvalidPath,
}

pub open spec fn starts_with(s: Seq<char>, p: Seq<char>) -> bool {
    p.len() <= s.len() && s.subrange(0, p.len() as int) == p
}

/// The text that every URL of a scheme starts with.
pub open spec fn scheme_prefix(scheme: Scheme) -> Seq<char> {
    match scheme {
        Scheme::File => "file://"@,
        Scheme::Http => "http://"@,
        Scheme::Https => "https://"@,
    }
}

/// The name of a scheme, as it stands before the colon.
pub open spec fn scheme_name(scheme: Scheme) -> Seq<char> {
    match scheme {
        Scheme::File => "file"@,
        Scheme::Http => "http"@,
        Scheme::Https => "https"@,
    }
}

/// The supported scheme of a serialised URL, if it has one.
pub open spec fn scheme_of(href: Seq<char>) -> Option<Scheme> {
    if starts_with(href, "file://"@) {
        Some(Scheme::File)
    } else if starts_with(href, "http://"@) {
        Some(Scheme::Http)
    } else if starts_with(href, "https://"@) {
        Some(Scheme::Https)
    } else {
        None
    }
}

/// What follows `scheme://` in a serialised URL of a supported scheme.
pub open spec fn after_scheme(href: Seq<char>) -> Seq<char> {
    href.subrange(scheme_prefix(scheme_of(href)->0).len() as int, href.len() as int)
}

/// Whether the URL is fetched over the network.
pub open spec fn is_network(href: Seq<char>) -> bool {
    scheme_of(href) == Some(Scheme::Http) || scheme_of(href) == Some(Scheme::Https)
}

/// The outcome of `url::Url::parse` on `s`, with the URL in its serialised form.
pub uninterp spec fn url_parse_result(s: Seq<char>) -> Result<Seq<char>, UrlFailure>;

/// The outcome of parsing `base` with `url::Url::parse` and joining `s` to it with
/// `url::Url::join`, with the URL in its serialised form.
pub uninterp spec fn url_join_result(base: Seq<char>, s: Seq<char>) -> Result<Seq<char>, UrlFailure>;

/// The local path that `url::Url::to_file_path` gives for the URL `href`, if any.
pub uninterp spec fn url_file_path(href: Seq<char>) -> Option<Seq<char>>;

pub open spec fn text_result(r: Result<String, UrlFailure>) -> Result<Seq<char>, UrlFailure> {
    match r {
        Ok(h) => Ok(h@),
        Err(e) => Err(e),
    }
}

/// Relies on `url::Url::parse`, serialised with `String::from(Url)`.
#[verifier::external_body]
fn parse_url(s: &str) -> (r: Result<String, UrlFailure>)
    ensures
        text_result(r) == url_parse_result(s@),
{
    match url::Url::parse(s) {
        Ok(u) => Ok(String::from(u)),
        Err(url::ParseError::RelativeUrlWithoutBase) => Err(UrlFailure::RelativeWithoutBase),
        Err(_) => Err(UrlFailure::Invalid),
    }
}

/// Relies on `url::Url::join` on the base that `url::Url::parse` gives, serialised with
/// `String::from(Url)`.
#[verifier::external_body]
fn join_url(base: &str, s: &str) -> (r: Result<String, UrlFailure>)
    ensures
        text_result(r) == url_join_result(base@, s@),
{
    match url::Url::parse(base) {
        Ok(b) => match b.join(s) {
            Ok(u) => Ok(String::from(u)),
            Err(_) => Err(UrlFailure::Invalid),
        },
        Err(_) => Err(UrlFailure::InvalidBase),
    }
}

/// Relies on `url::Url::to_file_path` on the URL that `url::Url::parse` gives; a path that is
/// not valid Unicode counts as none.
#[verifier::external_body]
fn file_path_of(href: &str) -> (r: Option<String>)
    ensures
        match r {
            Some(p) => url_file_path(href@) == Some(p@),
            None => url_file_path(href@) is None,
        },
{
    match url::Url::parse(href) {
        Ok(u) => match u.to_file_path() {
            Ok(p) => p.to_str().map(String::from),
            Err(_) => None,
        },
        Err(_) => None,
    }
}

/// A canonical absolute URL of a supported scheme, naming one module.
#[derive(Debug)]
pub struct ModuleSpecifier {
    href: String,
    scheme: Scheme,
}

impl View for ModuleSpecifier {
    type V = Seq<char>;

    closed spec fn view(&self) -> Seq<char> {
        self.href@
    }
}

impl ModuleSpecifier {
    #[verifier::type_invariant]
    spec fn inv(self) -> bool {
        scheme_of(self.href@) == Some(self.scheme)
    }

    pub closed spec fn spec_scheme(&self) -> Scheme {
        self.scheme
    }

    /// Takes a serialised URL as a specifier, when its scheme is supported.
    pub fn from_href(href: String) -> (r: Option<ModuleSpecifier>)
        ensures
            r is Some <==> scheme_of(href@) is Some,
            r matches Some(m) ==> m@ == href@,
    {
        let v = chars_of(href.as_str());
        let scheme = if occurs_at(&v, 0, "file://") {
            Scheme::File
        } else if occurs_at(&v, 0, "http://") {
            Scheme::Http
        } else if occurs_at(&v, 0, "https://") {
            Scheme::Https
        } else {
            return None;
        };
        Some(ModuleSpecifier { href, scheme })
    }

    /// The specifier's full text.
    pub fn as_str(&self) -> (r: &str)
        ensures
            r@ == self@,
            scheme_of(r@) == Some(self.spec_scheme()),
    {
        proof {
            use_type_invariant(self);
        }
        self.href.as_str()
    }

    pub fn scheme(&self) -> (r: Scheme)
        ensures
            r == self.spec_scheme(),
            Some(r) == scheme_of(self@),
    {
        proof {
            use_type_invariant(self);
        }
        self.scheme
    }

    /// Whether the module is fetched over the network.
    pub fn is_network(&self) -> (r: bool)
        ensures
            r == is_network(self@),
    {
        proof {
            use_type_invariant(self);
        }
        match self.scheme {
            Scheme::File => false,
            _ => true,
        }
    }

    /// The local path of a `file` specifier, as the URL library derives it.
    pub fn to_file_path(&self) -> (r: Option<String>)
        ensures
            match r {
                Some(p) => url_file_path(self@) == Some(p@),
                None => url_file_path(self@) is None,
            },
    {
        file_path_of(self.href.as_str())
    }

    pub fn clone(&self) -> (r: ModuleSpecifier)
        ensures
            r@ == self@,
            r.spec_scheme() == self.spec_scheme(),
    {
        proof {
            use_type_invariant(self);
        }
        ModuleSpecifier { href: self.href.clone(), scheme: self.scheme }
    }
}

/// Whether an import that is not an absolute URL may be taken as a path.
pub open spec fn has_relative_prefix(s: Seq<char>) -> bool {
    starts_with(s, "/"@) || starts_with(s, "./"@) || starts_with(s, "../"@)
}

/// What becomes of a URL that the parser produced or declined.
pub open spec fn accepted(r: Result<Seq<char>, UrlFailure>) -> Result<Seq<char>, ResolveError> {
    match r {
        Ok(href) => if scheme_of(href) is Some {
            Ok(href)
        } else {
            Err(ResolveError::UnsupportedScheme)
        },
        Err(UrlFailure::InvalidBase) => Err(ResolveError::InvalidBaseUrl),
        Err(_) => Err(ResolveError::InvalidUrl),
    }
}

/// The specifier that `specifier`, imported from `referrer`, resolves to. An empty referrer
/// stands for the entry module, whose imports are relative to the working directory `cwd`
/// (a `file` URL that ends with `/`).
pub open spec fn resolution(specifier: Seq<char>, referrer: Seq<char>, cwd: Seq<char>) -> Result<
    Seq<char>,
    ResolveError,
> {
    match url_parse_result(specifier) {
        Err(UrlFailure::RelativeWithoutBase) => if !has_relative_prefix(specifier) {
            Err(ResolveError::ImportPrefixMissing)
        } else if referrer.len() == 0 {
            accepted(url_join_result(cwd, specifier))
        } else {
            accepted(url_join_result(referrer, specifier))
        },
        parsed => accepted(parsed),
    }
}

pub open spec fn specifier_result(r: Result<ModuleSpecifier, ResolveError>) -> Result<
    Seq<char>,
    ResolveError,
> {
    match r {
        Ok(m) => Ok(m@),
        Err(e) => Err(e),
    }
}

fn accept(r: Result<String, UrlFailure>) -> (out: Result<ModuleSpecifier, ResolveError>)
    ensures
        specifier_result(out) == accepted(text_result(r)),
{
    match r {
        Ok(href) => match ModuleSpecifier::from_href(href) {
            Some(m) => Ok(m),
            None => Err(ResolveError::UnsupportedScheme),
        },
        Err(UrlFailure::InvalidBase) => Err(ResolveError::InvalidBaseUrl),
        Err(_) => Err(ResolveError::InvalidUrl),
    }
}

/// Resolves `specifier`, imported from `referrer`, to a module specifier; see `resolution`.
pub fn resolve_import(specifier: &str, referrer: &str, cwd: &str) -> (r: Result<
    ModuleSpecifier,
    ResolveError,
>)
    ensures
        specifier_result(r) == resolution(specifier@, referrer@, cwd@),
{
    match parse_url(specifier) {
        Err(UrlFailure::RelativeWithoutBase) => {
            let v = chars_of(specifier);
            if !(occurs_at(&v, 0, "/") || occurs_at(&v, 0, "./") || occurs_at(&v, 0, "../")) {
                return Err(ResolveError::ImportPrefixMissing);
            }
            if referrer.unicode_len() == 0 {
                accept(join_url(cwd, specifier))
            } else {
                accept(join_url(referrer, specifier))
            }
        },
        parsed => accept(parsed),
    }
}

/// `path` taken relative to the directory `dir`, as `Path::join` joins them on Unix: an
/// absolute `path` stands alone, anything else follows `dir` after a `/`.
pub open spec fn joined_path(dir: Seq<char>, path: Seq<char>) -> Seq<char> {
    if starts_with(path, "/"@) {
        path
    } else if dir.len() > 0 && dir.last() == '/' {
        dir + path
    } else {
        dir + seq!['/'] + path
    }
}

/// The serialised URL that `url::Url::from_file_path` gives for the path `path`, if any.
pub uninterp spec fn url_from_file_path(path: Seq<char>) -> Option<Seq<char>>;

/// Relies on `url::Url::from_file_path`, which accepts absolute paths only, serialised with
/// `String::from(Url)`.
#[verifier::external_body]
fn file_url_of(path: &str) -> (r: Option<String>)
    ensures
        match r {
            Some(h) => url_from_file_path(path@) == Some(h@),
            None => url_from_file_path(path@) is None,
        },
{
    match url::Url::from_file_path(path) {
        Ok(u) => Some(String::from(u)),
        Err(_) => None,
    }
}

/// `path` joined to `dir`; see `joined_path`.
pub fn join_path(dir: &str, path: &str) -> (r: String)
    ensures
        r@ == joined_path(dir@, path@),
{
    let v = chars_of(path);
    if occurs_at(&v, 0, "/") {
        return String::from_str(path);
    }
    let d = chars_of(dir);
    let mut r = String::from_str(dir);
    if !(d.len() > 0 && d[d.len() - 1] == '/') {
        r.append("/");
        proof {
            reveal_strlit("/");
        }
    }
    r.append(path);
    r
}

/// The specifier of the entry module named on the command line: a URL as it is; anything
/// else a file path, relative to the working directory `cwd` (an absolute path), whose
/// `file` URL is then parsed, which drops `.` and `..` segments.
pub open spec fn main_module_resolution(path: Seq<char>, cwd: Seq<char>) -> Result<
    Seq<char>,
    ResolveError,
> {
    match url_parse_result(path) {
        Ok(href) => accepted(Ok(href)),
        Err(_) => match url_from_file_path(joined_path(cwd, path)) {
            Some(href) => accepted(url_parse_result(href)),
            None => Err(ResolveError::InvalidPath),
        },
    }
}

/// Resolves the entry module; see `main_module_resolution`.
pub fn resolve_main_module(path: &str, cwd: &str) -> (r: Result<ModuleSpecifier, ResolveError>)
    ensures
        specifier_result(r) == main_module_resolution(path@, cwd@),
{
    match parse_url(path) {
        Ok(href) => accept(Ok(href)),
        Err(_) => {
            let joined = join_path(cwd, path);
            match file_url_of(joined.as_str()) {
                Some(href) => accept(parse_url(href.as_str())),
                None => Err(ResolveError::InvalidPath),
            }
        },
    }
}

/// Resolving the same import from the same referrer always gives the same specifier.
pub proof fn lemma_resolution_deterministic(
    specifier: Seq<char>,
    referrer: Seq<char>,
    cwd: Seq<char>,
    first: Result<Seq<char>, ResolveError>,
    second: Result<Seq<char>, ResolveError>,
)
    requires
        first == resolution(specifier, referrer, cwd),
        second == resolution(specifier, referrer, cwd),
    ensures
        first == second,
        first matches Ok(href) ==> scheme_of(href) is Some,
{
}

} // verus!
