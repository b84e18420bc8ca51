//! The load orchestrator. Each load is a small state machine: it asks its driver to read the
//! cache, fetch from the network or read a local file, is told what came back, and ends
//! with the module (or the error) and, for fresh network content, the cache entry to write.
use crate::cache::{entry_of, scratch_of, ModuleCache};
use crate::media::{classification, classify, LanguageKind};
use crate::runtime_state::RuntimeState;
use crate::specifier::{
    is_network, resolution, resolve_import, specifier_result, url_file_path, ModuleSpecifier,
    ResolveError, Scheme,
};
use crate::transpile::{executable_code, maybe_transpile, TranspileFailure};
use vstd::prelude::*;

verus! {

/// How a run treats the content cache.
#[derive(Clone, Copy, Debug, PartialEq, Eq, Structural)]
pub struct LoadPolicy {
    /// Do not read the cache in this run, but still write what is fetched.
    pub reload_cache: bool,
    /// Remove the whole cache before the run begins.
    pub clean_cache: bool,
}

impl LoadPolicy {
    /// Whether the cache root is to be removed before any module is loaded.
    pub fn clears_cache_first(&self) -> (r: bool)
        ensures
            r == self.clean_cache,
    {
        self.clean_cache
    }
}

/// The options of one run of a module.
#[derive(Clone, Copy, Debug, PartialEq, Eq, Structural)]
pub struct SableOptions {
    pub clean_cache: bool,
    pub reload_cache: bool,
    pub state: RuntimeState,
}

impl SableOptions {
    /// How the run treats the content cache.
    pub fn policy(&self) -> (r: LoadPolicy)
        ensures
            r.clean_cache == self.clean_cache,
            r.reload_cache == self.reload_cache,
    {
        LoadPolicy { reload_cache: self.reload_cache, clean_cache: self.clean_cache }
    }
}

/// The module type that the engine asked for.
#[derive(Clone, Copy, Debug, PartialEq, Eq, Structural)]
pub enum RequestedKind {
    /// An ordinary import: executable script.
    Script,
    /// An import with the JSON attribute.
    Json,
}

/// The kinds of failure of a load.
#[derive(Clone, Copy, Debug, PartialEq, Eq, Structural)]
pub enum LoadErrorKind {
    /// The local file does not exist.
    NotFound,
    /// The local file could not be read.
    Io,
    /// A `file` specifier that names no local path.
    InvalidFilePath,
    /// The network request failed or answered with a non-success status.
    FetchFailed,
    /// The transpiler reported a diagnostic, or the source is not UTF-8 text.
    Transpile,
    /// Neither the extension nor the content type names a supported language.
    UnsupportedMediaType,
    /// A JSON module imported without the JSON attribute.
    ModuleKindMismatch,
}

/// A failed load: its kind, and a message for the user.
#[derive(Debug)]
pub struct LoadError {
    pub kind: LoadErrorKind,
    pub message: String,
}

/// A loaded module: its language and its executable bytes.
#[derive(Debug)]
pub struct LoadedModule {
    pub kind: LanguageKind,
    pub code: Vec<u8>,
}

/// Why a local file could not be read.
#[derive(Clone, Copy, Debug, PartialEq, Eq, Structural)]
pub enum LocalFailure {
    NotFound,
    Io,
}

/// A successful network response.
#[derive(Debug)]
pub struct RemoteBody {
    pub body: Vec<u8>,
    /// The `Content-Type` header, if the response had one.
    pub content_type: Option<String>,
}

/// A cache entry to write: the bytes go to `scratch` first and are then moved to `path`.
#[derive(Debug)]
pub struct CacheWrite {
    pub path: String,
    pub scratch: String,
    pub bytes: Vec<u8>,
}

/// What the driver of a load is asked to do next.
#[derive(Debug)]
pub enum LoadAction {
    /// Read the cache entry at `path`, and report its bytes or its absence.
    ReadCache { path: String },
    /// Fetch `url` over the network, and report the response.
    Fetch { url: String },
    /// Read the local file at `path`, and report its bytes or the failure.
    ReadFile { path: String },
    /// The load is over: hand `result` to the engine, and write `store`, if any, to the
    /// cache (a failure to write it does not fail the load).
    Finish { result: Result<LoadedModule, LoadError>, store: Option<CacheWrite> },
}

/// The outcome of a load, in the model.
pub type Outcome = Result<(LanguageKind, Seq<u8>), LoadErrorKind>;

/// A `LoadAction`, in the model.
pub enum Step {
    ReadCache(Seq<char>),
    Fetch(Seq<char>),
    ReadFile(Seq<char>),
    Finish(Outcome, Option<(Seq<char>, Seq<u8>)>),
}

pub open spec fn outcome_of(r: Result<LoadedModule, LoadError>) -> Outcome {
    match r {
        Ok(m) => Ok((m.kind, m.code@)),
        Err(e) => Err(e.kind),
    }
}

impl View for LoadAction {
    type V = Step;

    open spec fn view(&self) -> Step {
        match self {
            LoadAction::ReadCache { path } => Step::ReadCache(path@),
            LoadAction::Fetch { url } => Step::Fetch(url@),
            LoadAction::ReadFile { path } => Step::ReadFile(path@),
            LoadAction::Finish { result, store } => Step::Finish(
                outcome_of(*result),
                match store {
                    Some(w) => Some((w.path@, w.bytes@)),
                    None => None,
                },
            ),
        }
    }
}

/// Where a load stands.
#[derive(Clone, Copy, Debug, PartialEq, Eq, Structural)]
pub enum LoadStage {
    Start,
    CacheCheck,
    Fetching,
    Reading,
    Done,
}

/// What a load returns for `source` of language `kind`: the unsupported language and the
/// JSON that was not asked for as JSON fail, the rest is made executable.
pub open spec fn completion(
    href: Seq<char>,
    requested: RequestedKind,
    source: Seq<u8>,
    kind: LanguageKind,
) -> Outcome {
    if kind == LanguageKind::Unsupported {
        Err(LoadErrorKind::UnsupportedMediaType)
    } else if kind == LanguageKind::Json && requested != RequestedKind::Json {
        Err(LoadErrorKind::ModuleKindMismatch)
    } else {
        match executable_code(href, source, kind) {
            Some(code) => Ok((kind, code)),
            None => Err(LoadErrorKind::Transpile),
        }
    }
}

/// The first step of a load. A network module is looked up in the cache unless the policy
/// says to reload; a local file is read from its path.
pub open spec fn begin_step(href: Seq<char>, entry: Seq<char>, policy: LoadPolicy) -> (
    LoadStage,
    Step,
) {
    if is_network(href) {
        if policy.reload_cache {
            (LoadStage::Fetching, Step::Fetch(href))
        } else {
            (LoadStage::CacheCheck, Step::ReadCache(entry))
        }
    } else {
        match url_file_path(href) {
            Some(p) => (LoadStage::Reading, Step::ReadFile(p)),
            None => (LoadStage::Done, Step::Finish(Err(LoadErrorKind::InvalidFilePath), None)),
        }
    }
}

/// After the cache was read: a hit completes the load with the cached bytes, classified by
/// extension alone, and writes nothing; a miss goes to the network.
pub open spec fn cache_step(href: Seq<char>, requested: RequestedKind, cached: Option<Seq<u8>>) -> (
    LoadStage,
    Step,
) {
    match cached {
        Some(b) => (
            LoadStage::Done,
            Step::Finish(completion(href, requested, b, classification(href, None)), None),
        ),
        None => (LoadStage::Fetching, Step::Fetch(href)),
    }
}

/// After the network answered: a body completes the load, classified with the declared
/// content type, and is written to the entry; a failure fails the load.
pub open spec fn fetched_step(
    href: Seq<char>,
    entry: Seq<char>,
    requested: RequestedKind,
    reply: Option<(Seq<u8>, Option<Seq<char>>)>,
) -> Step {
    match reply {
        Some((body, content_type)) => Step::Finish(
            completion(href, requested, body, classification(href, content_type)),
            Some((entry, body)),
        ),
        None => Step::Finish(Err(LoadErrorKind::FetchFailed), None),
    }
}

/// After a local file was read: its bytes complete the load, and nothing is cached.
pub open spec fn read_step(
    href: Seq<char>,
    requested: RequestedKind,
    reply: Result<Seq<u8>, LocalFailure>,
) -> Step {
    match reply {
        Ok(b) => Step::Finish(completion(href, requested, b, classification(href, None)), None),
        Err(LocalFailure::NotFound) => Step::Finish(Err(LoadErrorKind::NotFound), None),
        Err(LocalFailure::Io) => Step::Finish(Err(LoadErrorKind::Io), None),
    }
}

/// The message of the error for a JSON module imported without the JSON attribute: it names
/// the attribute to add.
pub open spec fn json_mismatch_message() -> Seq<char> {
    "cannot load a JSON module as script; import it with the attribute `with { type: \"json\" }`"@
}

/// Whether a finished load that failed for a kind mismatch says how to import JSON.
pub open spec fn mismatch_explained(r: Result<LoadedModule, LoadError>) -> bool {
    match r {
        Err(e) => e.kind == LoadErrorKind::ModuleKindMismatch ==> e.message@
            == json_mismatch_message(),
        Ok(_) => true,
    }
}

/// Whether an action that finishes a load, failed for a kind mismatch, says how to import
/// JSON.
pub open spec fn action_explained(a: LoadAction) -> bool {
    match a {
        LoadAction::Finish { result, .. } => mismatch_explained(result),
        _ => true,
    }
}

fn load_error(kind: LoadErrorKind, message: &str) -> (r: LoadError)
    ensures
        r.kind == kind,
        r.message@ == message@,
{
    LoadError { kind, message: String::from_str(message) }
}

fn complete(
    specifier: &ModuleSpecifier,
    requested: RequestedKind,
    source: &[u8],
    kind: LanguageKind,
) -> (r: Result<LoadedModule, LoadError>)
    ensures
        outcome_of(r) == completion(specifier@, requested, source@, kind),
        mismatch_explained(r),
{
    if kind == LanguageKind::Unsupported {
        return Err(load_error(LoadErrorKind::UnsupportedMediaType, "unsupported media type"));
    }
    if kind == LanguageKind::Json && requested != RequestedKind::Json {
        return Err(
            load_error(
                LoadErrorKind::ModuleKindMismatch,
                "cannot load a JSON module as script; import it with the attribute `with { type: \"json\" }`",
            ),
        );
    }
    match maybe_transpile(specifier.as_str(), source, kind) {
        Ok(code) => Ok(LoadedModule { kind, code }),
        Err(TranspileFailure::NotUtf8) => Err(
            load_error(LoadErrorKind::Transpile, "module source is not valid UTF-8"),
        ),
        Err(TranspileFailure::Diagnostic(message)) => Err(
            LoadError { kind: LoadErrorKind::Transpile, message },
        ),
    }
}

/// One load of one module.
pub struct LoadMachine {
    specifier: ModuleSpecifier,
    requested: RequestedKind,
    policy: LoadPolicy,
    entry: String,
    scratch: String,
    stage: LoadStage,
}

impl LoadMachine {
    pub closed spec fn spec_href(&self) -> Seq<char> {
        self.specifier@
    }

    pub closed spec fn spec_entry(&self) -> Seq<char> {
        self.entry@
    }

    pub closed spec fn spec_scratch(&self) -> Seq<char> {
        self.scratch@
    }

    pub closed spec fn spec_requested(&self) -> RequestedKind {
        self.requested
    }

    pub closed spec fn spec_policy(&self) -> LoadPolicy {
        self.policy
    }

    pub closed spec fn spec_stage(&self) -> LoadStage {
        self.stage
    }

    /// The parts that no step changes.
    pub open spec fn same_load(&self, other: &LoadMachine) -> bool {
        &&& other.spec_href() == self.spec_href()
        &&& other.spec_entry() == self.spec_entry()
        &&& other.spec_scratch() == self.spec_scratch()
        &&& other.spec_requested() == self.spec_requested()
        &&& other.spec_policy() == self.spec_policy()
    }

    /// A load of `specifier` as `requested`, under `policy`, with its cache entry in `cache`.
    pub fn new(
        cache: &ModuleCache,
        specifier: &ModuleSpecifier,
        requested: RequestedKind,
        policy: LoadPolicy,
    ) -> (r: LoadMachine)
        ensures
            r.spec_href() == specifier@,
            r.spec_entry() == entry_of(cache@, specifier@),
            r.spec_scratch() == scratch_of(cache@, specifier@),
            r.spec_requested() == requested,
            r.spec_policy() == policy,
            r.spec_stage() == LoadStage::Start,
    {
        LoadMachine {
            specifier: specifier.clone(),
            requested,
            policy,
            entry: cache.entry_path(specifier),
            scratch: cache.scratch_path(specifier),
            stage: LoadStage::Start,
        }
    }

    pub fn stage(&self) -> (r: LoadStage)
        ensures
            r == self.spec_stage(),
    {
        self.stage
    }

    /// Starts the load; see `begin_step`.
    pub fn begin(&mut self) -> (r: LoadAction)
        requires
            old(self).spec_stage() == LoadStage::Start,
        ensures
            old(self).same_load(final(self)),
            (final(self).spec_stage(), r@) == begin_step(
                old(self).spec_href(),
                old(self).spec_entry(),
                old(self).spec_policy(),
            ),
    {
        if self.specifier.is_network() {
            if self.policy.reload_cache {
                self.stage = LoadStage::Fetching;
                LoadAction::Fetch { url: self.specifier.as_str().to_string() }
            } else {
                self.stage = LoadStage::CacheCheck;
                LoadAction::ReadCache { path: self.entry.clone() }
            }
        } else {
            match self.specifier.to_file_path() {
                Some(path) => {
                    self.stage = LoadStage::Reading;
                    LoadAction::ReadFile { path }
                },
                None => {
                    self.stage = LoadStage::Done;
                    LoadAction::Finish {
                        result: Err(
                            load_error(
                                LoadErrorKind::InvalidFilePath,
                                "the module specifier names no local file path",
                            ),
                        ),
                        store: None,
                    }
                },
            }
        }
    }

    /// Takes what the cache held for the entry; see `cache_step`.
    pub fn on_cache(&mut self, cached: Option<Vec<u8>>) -> (r: LoadAction)
        requires
            old(self).spec_stage() == LoadStage::CacheCheck,
        ensures
            old(self).same_load(final(self)),
            action_explained(r),
            (final(self).spec_stage(), r@) == cache_step(
                old(self).spec_href(),
                old(self).spec_requested(),
                match cached {
                    Some(b) => Some(b@),
                    None => None,
                },
            ),
    {
        match cached {
            Some(bytes) => {
                self.stage = LoadStage::Done;
                let kind = classify(&self.specifier, None);
                let result = complete(&self.specifier, self.requested, bytes.as_slice(), kind);
                LoadAction::Finish { result, store: None }
            },
            None => {
                self.stage = LoadStage::Fetching;
                LoadAction::Fetch { url: self.specifier.as_str().to_string() }
            },
        }
    }

    /// Takes the network's answer; see `fetched_step`.
    pub fn on_fetched(&mut self, reply: Result<RemoteBody, String>) -> (r: LoadAction)
        requires
            old(self).spec_stage() == LoadStage::Fetching,
        ensures
            old(self).same_load(final(self)),
            action_explained(r),
            final(self).spec_stage() == LoadStage::Done,
            r matches LoadAction::Finish { store: Some(w), .. } ==> w.scratch@
                == old(self).spec_scratch(),
            r@ == fetched_step(
                old(self).spec_href(),
                old(self).spec_entry(),
                old(self).spec_requested(),
                match reply {
                    Ok(b) => Some(
                        (
                            b.body@,
                            match b.content_type {
                                Some(c) => Some(c@),
                                None => None,
                            },
                        ),
                    ),
                    Err(_) => None,
                },
            ),
    {
        self.stage = LoadStage::Done;
        match reply {
            Ok(remote) => {
                let kind = match &remote.content_type {
                    Some(c) => classify(&self.specifier, Some(c.as_str())),
                    None => classify(&self.specifier, None),
                };
                let result = complete(
                    &self.specifier,
                    self.requested,
                    remote.body.as_slice(),
                    kind,
                );
                let store = CacheWrite {
                    path: self.entry.clone(),
                    scratch: self.scratch.clone(),
                    bytes: remote.body,
                };
                LoadAction::Finish { result, store: Some(store) }
            },
            Err(message) => LoadAction::Finish {
                result: Err(LoadError { kind: LoadErrorKind::FetchFailed, message }),
                store: None,
            },
        }
    }

    /// Takes the outcome of reading the local file; see `read_step`.
    pub fn on_read(&mut self, reply: Result<Vec<u8>, LocalFailure>) -> (r: LoadAction)
        requires
            old(self).spec_stage() == LoadStage::Reading,
        ensures
            old(self).same_load(final(self)),
            action_explained(r),
            final(self).spec_stage() == LoadStage::Done,
            r@ == read_step(
                old(self).spec_href(),
                old(self).spec_requested(),
                match reply {
                    Ok(b) => Ok(b@),
                    Err(e) => Err(e),
                },
            ),
    {
        self.stage = LoadStage::Done;
        let result = match reply {
            Ok(bytes) => {
                let kind = classify(&self.specifier, None);
                complete(&self.specifier, self.requested, bytes.as_slice(), kind)
            },
            Err(LocalFailure::NotFound) => Err(
                load_error(LoadErrorKind::NotFound, "module file not found"),
            ),
            Err(LocalFailure::Io) => Err(load_error(LoadErrorKind::Io, "module file unreadable")),
        };
        LoadAction::Finish { result, store: None }
    }
}

/// The module loader that the engine calls: it resolves imports and starts loads.
pub struct TsModuleLoader {
    /// Where fetched network modules are kept.
    pub cache: ModuleCache,
    pub policy: LoadPolicy,
    /// The working directory, as a `file` URL ending in `/`: the base of the entry module's
    /// relative imports.
    pub cwd: String,
}

impl TsModuleLoader {
    /// Resolves `specifier`, imported from `referrer` (empty for the entry module).
    pub fn resolve(&self, specifier: &str, referrer: &str) -> (r: Result<
        ModuleSpecifier,
        ResolveError,
    >)
        ensures
            specifier_result(r) == resolution(specifier@, referrer@, self.cwd@),
    {
        resolve_import(specifier, referrer, self.cwd.as_str())
    }

    /// Starts a load of `specifier` as `requested`.
    pub fn load(&self, specifier: &ModuleSpecifier, requested: RequestedKind) -> (r: LoadMachine)
        ensures
            r.spec_href() == specifier@,
            r.spec_entry() == entry_of(self.cache@, specifier@),
            r.spec_scratch() == scratch_of(self.cache@, specifier@),
            r.spec_requested() == requested,
            r.spec_policy() == self.policy,
            r.spec_stage() == LoadStage::Start,
    {
        LoadMachine::new(&self.cache, specifier, requested, self.policy)
    }
}

/// What a load meets outside: the cache's entries, the network's answer, and the local file.
pub struct World {
    pub store: Map<Seq<char>, Seq<u8>>,
    pub remote: Option<(Seq<u8>, Option<Seq<char>>)>,
    pub local: Result<Seq<u8>, LocalFailure>,
}

/// One load driven to its end: its outcome, the cache after it, how many network requests it
/// made, and the source bytes it obtained.
pub struct LoadRun {
    pub result: Outcome,
    pub store: Map<Seq<char>, Seq<u8>>,
    pub network_requests: nat,
    pub source: Option<Seq<u8>>,
}

pub open spec fn default_policy() -> LoadPolicy {
    LoadPolicy { reload_cache: false, clean_cache: false }
}

/// The cache as a run finds it: empty when the policy cleans it first.
pub open spec fn store_at_start(policy: LoadPolicy, store: Map<Seq<char>, Seq<u8>>) -> Map<
    Seq<char>,
    Seq<u8>,
> {
    if policy.clean_cache {
        Map::empty()
    } else {
        store
    }
}

pub open spec fn finish_run(
    step: Step,
    store: Map<Seq<char>, Seq<u8>>,
    network_requests: nat,
    source: Option<Seq<u8>>,
) -> LoadRun {
    match step {
        Step::Finish(result, write) => LoadRun {
            result,
            store: match write {
                Some((path, bytes)) => store.insert(path, bytes),
                None => store,
            },
            network_requests,
            source,
        },
        _ => LoadRun { result: Err(LoadErrorKind::Io), store, network_requests, source },
    }
}

pub open spec fn fetch_run(
    href: Seq<char>,
    entry: Seq<char>,
    requested: RequestedKind,
    world: World,
) -> LoadRun {
    finish_run(
        fetched_step(href, entry, requested, world.remote),
        world.store,
        1,
        match world.remote {
            Some((body, _)) => Some(body),
            None => None,
        },
    )
}

/// A load driven by a driver that does what each step asks in `world`, with every cache
/// write succeeding.
pub open spec fn run_load(
    href: Seq<char>,
    entry: Seq<char>,
    requested: RequestedKind,
    policy: LoadPolicy,
    world: World,
) -> LoadRun {
    match begin_step(href, entry, policy).1 {
        Step::ReadCache(path) => {
            let cached = if world.store.contains_key(path) {
                Some(world.store[path])
            } else {
                None
            };
            match cache_step(href, requested, cached).1 {
                Step::Fetch(_) => fetch_run(href, entry, requested, world),
                step => finish_run(step, world.store, 0, cached),
            }
        },
        Step::Fetch(_) => fetch_run(href, entry, requested, world),
        Step::ReadFile(_) => finish_run(
            read_step(href, requested, world.local),
            world.store,
            0,
            match world.local {
                Ok(b) => Some(b),
                Err(_) => None,
            },
        ),
        step => finish_run(step, world.store, 0, None),
    }
}

/// After a network module loaded, a second load of it under the default policy makes no
/// network request and obtains the same source bytes, from the cache; where the module's
/// extension names its language, it also returns the same result.
pub proof fn lemma_second_load_uses_cache(
    href: Seq<char>,
    entry: Seq<char>,
    requested: RequestedKind,
    first: World,
    second: World,
)
    requires
        is_network(href),
        run_load(href, entry, requested, default_policy(), first).result is Ok,
        second.store == run_load(href, entry, requested, default_policy(), first).store,
    ensures
        run_load(href, entry, requested, default_policy(), second).network_requests == 0,
        run_load(href, entry, requested, default_policy(), second).source == run_load(
            href,
            entry,
            requested,
            default_policy(),
            first,
        ).source,
        classification(href, None) != LanguageKind::Unsupported ==> run_load(
            href,
            entry,
            requested,
            default_policy(),
            second,
        ).result == run_load(href, entry, requested, default_policy(), first).result,
{
}

/// Under a policy that reloads, a network module is fetched exactly once, even when its entry
/// exists, and a body that arrives replaces the entry.
pub proof fn lemma_reload_fetches_once(
    href: Seq<char>,
    entry: Seq<char>,
    requested: RequestedKind,
    policy: LoadPolicy,
    world: World,
)
    requires
        is_network(href),
        policy.reload_cache,
    ensures
        run_load(href, entry, requested, policy, world).network_requests == 1,
        world.remote matches Some((body, _)) ==> run_load(
            href,
            entry,
            requested,
            policy,
            world,
        ).store == world.store.insert(entry, body),
{
}

/// Under a policy that cleans the cache, a network module is fetched again, whatever the
/// cache held before the run.
pub proof fn lemma_clean_cache_refetches(
    href: Seq<char>,
    entry: Seq<char>,
    requested: RequestedKind,
    policy: LoadPolicy,
    world: World,
)
    requires
        is_network(href),
        policy.clean_cache,
    ensures
        run_load(
            href,
            entry,
            requested,
            policy,
            World { store: store_at_start(policy, world.store), ..world },
        ).network_requests == 1,
{
}

/// A fetched module classified as JSON fails with a kind mismatch unless JSON was asked for,
/// and is then returned as its raw bytes.
pub proof fn lemma_json_needs_attribute(
    href: Seq<char>,
    entry: Seq<char>,
    body: Seq<u8>,
    content_type: Option<Seq<char>>,
)
    requires
        classification(href, content_type) == LanguageKind::Json,
    ensures
        fetched_step(href, entry, RequestedKind::Script, Some((body, content_type))) == Step::Finish(
            Err(LoadErrorKind::ModuleKindMismatch),
            Some((entry, body)),
        ),
        fetched_step(href, entry, RequestedKind::Json, Some((body, content_type))) == Step::Finish(
            Ok((LanguageKind::Json, body)),
            Some((entry, body)),
        ),
{
}

} // verus!
