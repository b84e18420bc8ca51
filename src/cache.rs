//! The content cache's layout: where each remote module's bytes are kept under the cache root.
use crate::specifier::{after_scheme, scheme_name, scheme_of, scheme_prefix, ModuleSpecifier, Scheme};
use crate::text::{chars_of, string_of};
use vstd::prelude::*;

verus! {

/// A path under which the content cache keeps its entries: absolute, and with a parent.
pub open spec fn is_cache_location(l: Seq<char>) -> bool {
    l.len() > 0 && l[0] == '/' && exists|i: int| 0 <= i < l.len() && l[i] != '/'
}

/// `t` with each `/` turned into `_/`: every directory name then ends in `_`, so no name is
/// empty, `.` or `..`, and none equals the file name, which ends in `_f`.
pub open spec fn escape_segments(t: Seq<char>) -> Seq<char>
    decreases t.len(),
{
    if t.len() == 0 {
        Seq::empty()
    } else if t.last() == '/' {
        escape_segments(t.drop_last()) + seq!['_', '/']
    } else {
        escape_segments(t.drop_last()).push(t.last())
    }
}

/// The path, relative to the cache root, of the entry for the specifier `href`: its scheme's
/// name as a directory, then what follows `scheme://` with each segment but the last a
/// directory.
pub open spec fn cache_key(href: Seq<char>) -> Seq<char> {
    scheme_name(scheme_of(href)->0) + seq!['/'] + escape_segments(after_scheme(href)) + seq![
        '_',
        'f',
    ]
}

/// The absolute path of the entry for `href` in the cache rooted at `location`.
pub open spec fn entry_of(location: Seq<char>, href: Seq<char>) -> Seq<char> {
    location + seq!['/'] + cache_key(href)
}

/// The directory, inside the cache root, where entries are written before they are moved
/// into place.
pub open spec fn scratch_dir_name() -> Seq<char> {
    ".scratch"@
}

/// The absolute path of the scratch file through which the entry for `href` is written in the
/// cache rooted at `location`.
pub open spec fn scratch_of(location: Seq<char>, href: Seq<char>) -> Seq<char> {
    location + seq!['/'] + scratch_dir_name() + seq!['/'] + cache_key(href)
}

/// Where a content cache keeps the bytes of remote modules.
pub struct ModuleCache {
    location: String,
}

impl View for ModuleCache {
    type V = Seq<char>;

    closed spec fn view(&self) -> Seq<char> {
        self.location@
    }
}

/// Whether `location` may serve as a cache root; see `is_cache_location`.
pub fn is_valid_location(location: &str) -> (r: bool)
    ensures
        r == is_cache_location(location@),
{
    let v = chars_of(location);
    if v.len() == 0 || v[0] != '/' {
        return false;
    }
    let mut i: usize = 0;
    while i < v.len()
        invariant
            v@ == location@,
            v@.len() > 0,
            v@[0] == '/',
            i <= v@.len(),
            forall|j: int| 0 <= j < i ==> v@[j] == '/',
        decreases v@.len() - i,
    {
        if v[i] != '/' {
            assert(location@[i as int] != '/');
            return true;
        }
        i = i + 1;
    }
    false
}

impl ModuleCache {
    pub fn new(location: String) -> (r: ModuleCache)
        requires
            is_cache_location(location@),
        ensures
            r@ == location@,
    {
        ModuleCache { location }
    }

    pub fn location(&self) -> (r: &str)
        ensures
            r@ == self@,
    {
        self.location.as_str()
    }

    /// The absolute path of the entry for `specifier`.
    pub fn entry_path(&self, specifier: &ModuleSpecifier) -> (r: String)
        ensures
            r@ == entry_of(self@, specifier@),
    {
        let mut v = chars_of(self.location.as_str());
        v.push('/');
        let key = key_chars(specifier);
        let mut i: usize = 0;
        let ghost start = v@;
        while i < key.len()
            invariant
                i <= key@.len(),
                v@ == start + key@.subrange(0, i as int),
            decreases key@.len() - i,
        {
            v.push(key[i]);
            i = i + 1;
            assert(v@ =~= start + key@.subrange(0, i as int));
        }
        assert(key@.subrange(0, key@.len() as int) =~= key@);
        string_of(&v)
    }

    /// The absolute path of the scratch file through which the entry for `specifier` is
    /// written.
    pub fn scratch_path(&self, specifier: &ModuleSpecifier) -> (r: String)
        ensures
            r@ == scratch_of(self@, specifier@),
    {
        let mut v = chars_of(self.location.as_str());
        v.push('/');
        let dir = chars_of(".scratch");
        let ghost start = v@;
        let mut i: usize = 0;
        while i < dir.len()
            invariant
                i <= dir@.len(),
                v@ == start + dir@.subrange(0, i as int),
            decreases dir@.len() - i,
        {
            v.push(dir[i]);
            i = i + 1;
            assert(v@ =~= start + dir@.subrange(0, i as int));
        }
        assert(dir@.subrange(0, dir@.len() as int) =~= dir@);
        v.push('/');
        let key = key_chars(specifier);
        let ghost mid = v@;
        let mut k: usize = 0;
        while k < key.len()
            invariant
                k <= key@.len(),
                v@ == mid + key@.subrange(0, k as int),
            decreases key@.len() - k,
        {
            v.push(key[k]);
            k = k + 1;
            assert(v@ =~= mid + key@.subrange(0, k as int));
        }
        assert(key@.subrange(0, key@.len() as int) =~= key@);
        string_of(&v)
    }
}

/// The path of the entry for `specifier`, relative to the cache root; see `cache_key`.
pub fn module_specifier_to_path_buf(specifier: &ModuleSpecifier) -> (r: String)
    ensures
        r@ == cache_key(specifier@),
{
    let v = key_chars(specifier);
    string_of(&v)
}

fn key_chars(specifier: &ModuleSpecifier) -> (r: Vec<char>)
    ensures
        r@ == cache_key(specifier@),
{
    let href = chars_of(specifier.as_str());
    let scheme = specifier.scheme();
    let (mut out, start) = match scheme {
        Scheme::File => (chars_of("file"), 7usize),
        Scheme::Http => (chars_of("http"), 7usize),
        Scheme::Https => (chars_of("https"), 8usize),
    };
    proof {
        reveal_strlit("file://");
        reveal_strlit("http://");
        reveal_strlit("https://");
    }
    out.push('/');
    let ghost head = out@;
    let mut i: usize = start;
    while i < href.len()
        invariant
            start <= i <= href@.len(),
            start == scheme_prefix(scheme).len(),
            href@.len() >= start,
            out@ == head + escape_segments(href@.subrange(start as int, i as int)),
        decreases href@.len() - i,
    {
        let c = href[i];
        proof {
            assert(href@.subrange(start as int, i + 1).drop_last() =~= href@.subrange(
                start as int,
                i as int,
            ));
        }
        if c == '/' {
            out.push('_');
            out.push('/');
        } else {
            out.push(c);
        }
        i = i + 1;
        assert(out@ =~= head + escape_segments(href@.subrange(start as int, i as int)));
    }
    out.push('_');
    out.push('f');
    assert(out@ =~= cache_key(specifier@));
    out
}

proof fn lemma_escape_last(t: Seq<char>)
    ensures
        escape_segments(t).len() == 0 <==> t.len() == 0,
        t.len() > 0 && t.last() == '/' ==> escape_segments(t).len() >= 2 && escape_segments(
            t,
        ).last() == '/' && escape_segments(t).subrange(0, escape_segments(t).len() - 2)
            == escape_segments(t.drop_last()),
        t.len() > 0 && t.last() != '/' ==> escape_segments(t).last() == t.last()
            && escape_segments(t).drop_last() == escape_segments(t.drop_last()),
{
    if t.len() > 0 {
        let e = escape_segments(t.drop_last());
        if t.last() == '/' {
            assert((e + seq!['_', '/']).subrange(0, e.len() as int) =~= e);
        } else {
            assert(e.push(t.last()).drop_last() =~= e);
        }
    }
}

/// Distinct paths never share an escaped form.
pub proof fn lemma_escape_injective(a: Seq<char>, b: Seq<char>)
    requires
        escape_segments(a) == escape_segments(b),
    ensures
        a == b,
    decreases a.len(),
{
    lemma_escape_last(a);
    lemma_escape_last(b);
    if a.len() > 0 {
        lemma_escape_injective(a.drop_last(), b.drop_last());
        assert(a =~= a.drop_last().push(a.last()));
        assert(b =~= b.drop_last().push(b.last()));
    }
}

/// Two specifiers share a cache entry only when they are the same specifier, and a
/// specifier's entry is always the same path.
pub proof fn lemma_cache_key_injective(a: Seq<char>, b: Seq<char>)
    requires
        scheme_of(a) is Some,
        scheme_of(b) is Some,
    ensures
        cache_key(a) == cache_key(b) <==> a == b,
{
    if cache_key(a) == cache_key(b) {
        reveal_strlit("file://");
        reveal_strlit("http://");
        reveal_strlit("https://");
        reveal_strlit("file");
        reveal_strlit("http");
        reveal_strlit("https");
        let sa = scheme_of(a)->0;
        let sb = scheme_of(b)->0;
        let ka = cache_key(a);
        let na = scheme_name(sa);
        let nb = scheme_name(sb);
        assert(ka[0] == na[0]);
        assert(ka[4] == (if sa == Scheme::Https { 's' } else { '/' }));
        assert(cache_key(b)[4] == (if sb == Scheme::Https { 's' } else { '/' }));
        assert(sa == sb);
        let ea = escape_segments(after_scheme(a));
        let eb = escape_segments(after_scheme(b));
        assert(ea =~= ka.subrange(na.len() as int + 1, ka.len() as int - 2));
        assert(eb =~= ka.subrange(na.len() as int + 1, ka.len() as int - 2));
        lemma_escape_injective(after_scheme(a), after_scheme(b));
        let p = scheme_prefix(sa);
        assert(a =~= p + after_scheme(a));
        assert(b =~= p + after_scheme(b));
    }
}

/// Writing bytes to the entry of `u` and reading that entry back gives the same bytes, whatever
/// they are, and leaves the entry of every other specifier as it was.
pub proof fn lemma_cache_round_trip(
    store: Map<Seq<char>, Seq<u8>>,
    location: Seq<char>,
    u: Seq<char>,
    v: Seq<char>,
    bytes: Seq<u8>,
)
    requires
        scheme_of(u) is Some,
        scheme_of(v) is Some,
    ensures
        store.insert(entry_of(location, u), bytes)[entry_of(location, u)] == bytes,
        u != v ==> store.insert(entry_of(location, u), bytes).contains_key(entry_of(location, v))
            == store.contains_key(entry_of(location, v)),
        u != v ==> store.insert(entry_of(location, u), bytes)[entry_of(location, v)] == store[entry_of(
            location,
            v,
        )],
{
    lemma_cache_key_injective(u, v);
    if u != v {
        let n = location.len() + 1;
        assert(entry_of(location, u).subrange(n as int, entry_of(location, u).len() as int)
            =~= cache_key(u));
        assert(entry_of(location, v).subrange(n as int, entry_of(location, v).len() as int)
            =~= cache_key(v));
    }
}

} // verus!
