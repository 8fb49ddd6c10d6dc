//! Request-path resolution: normalization, joining under the serving root,
//! the directory-index fallback, and the probe-driven resolution state
//! machine.
//!
//! Opening files is left to the caller: the machine names the path to probe,
//! the caller reports how the open went, and the machine decides the next
//! step. The machine is verified against `resolution_spec`, the mathematical
//! statement of the whole algorithm over a model of the filesystem.
use vstd::prelude::*;

verus! {

use crate::text::ascii_bytes_of;

/// The request path must begin with a separator; resolution is undefined
/// otherwise (the caller treats such a request as malformed upstream).
pub open spec fn valid_request_path(path: Seq<u8>) -> bool {
    path.len() >= 1 && path[0] == '/' as u8
}

/// A request path stripped of its leading separator; the empty remainder
/// stands for the root and maps to `index.html`.
pub open spec fn normalized(path: Seq<u8>) -> Seq<u8>
    recommends
        valid_request_path(path),
{
    if path.len() <= 1 {
        ascii_bytes_of("index.html"@)
    } else {
        path.subrange(1, path.len() as int)
    }
}

/// Joining a relative path under a base path, as filesystem paths join:
/// an absolute right-hand side replaces the base, an empty base is dropped,
/// and otherwise exactly one separator stands between the two.
pub open spec fn joined_path(base: Seq<u8>, rel: Seq<u8>) -> Seq<u8> {
    if rel.len() > 0 && rel[0] == '/' as u8 {
        rel
    } else if base.len() == 0 {
        rel
    } else if base[base.len() - 1] == '/' as u8 {
        base + rel
    } else {
        base + seq!['/' as u8] + rel
    }
}

/// The directory-index fallback target for a path: `index.html` joined
/// under it, spelled with an explicit current-directory segment, exactly as
/// the serving layer probes it.
pub open spec fn with_index(p: Seq<u8>) -> Seq<u8> {
    joined_path(p, ascii_bytes_of("./index.html"@))
}

/// The filesystem path a fresh (cache-less) resolution probes first.
pub open spec fn primary_target(root: Seq<u8>, path: Seq<u8>) -> Seq<u8> {
    joined_path(root, normalized(path))
}

/// How an attempt to open a filesystem path for reading went.
#[derive(Clone, Copy, Debug, PartialEq, Eq)]
pub enum ProbeOutcome {
    /// The path opened as a readable regular file.
    FileOpened,
    /// The path opened but is a directory.
    IsDirectory,
    /// The path does not exist.
    NotFound,
    /// The open failed for any other reason (permissions, I/O error, ...).
    OtherError,
}

/// The resolution state machine. Probe states name the filesystem path the
/// caller must try to open next; `Resolved` and `Miss` are final.
#[derive(Debug, PartialEq, Eq)]
pub enum ResolveState {
    /// Probing a previously cached resolution; on failure, resolution
    /// restarts from the raw request path.
    ProbeCached { cached: Vec<u8>, root: Vec<u8>, path: Vec<u8> },
    /// Probing the normalized request path joined under the root.
    ProbePrimary { joined: Vec<u8> },
    /// Probing the directory-index fallback.
    ProbeIndex { index: Vec<u8> },
    /// Resolution succeeded; serve the file at this path.
    Resolved { path: Vec<u8> },
    /// Resolution failed; serve the not-found page.
    Miss,
}

/// Ghost mirror of `ResolveState`, over byte sequences.
pub ghost enum ResolveModel {
    ProbeCached { cached: Seq<u8>, root: Seq<u8>, path: Seq<u8> },
    ProbePrimary { joined: Seq<u8> },
    ProbeIndex { index: Seq<u8> },
    Resolved { path: Seq<u8> },
    Miss,
}

impl View for ResolveState {
    type V = ResolveModel;

    open spec fn view(&self) -> ResolveModel {
        match self {
            ResolveState::ProbeCached { cached, root, path } => ResolveModel::ProbeCached {
                cached: cached@,
                root: root@,
                path: path@,
            },
            ResolveState::ProbePrimary { joined } => ResolveModel::ProbePrimary {
                joined: joined@,
            },
            ResolveState::ProbeIndex { index } => ResolveModel::ProbeIndex { index: index@ },
            ResolveState::Resolved { path } => ResolveModel::Resolved { path: path@ },
            ResolveState::Miss => ResolveModel::Miss,
        }
    }
}

impl ResolveModel {
    /// Whether the machine still asks for a probe.
    pub open spec fn is_probe(self) -> bool {
        self matches ResolveModel::ProbeCached { .. }
            || self matches ResolveModel::ProbePrimary { .. }
            || self matches ResolveModel::ProbeIndex { .. }
    }

    /// The path a probe state asks the caller to open.
    pub open spec fn probe_target(self) -> Seq<u8>
        recommends
            self.is_probe(),
    {
        match self {
            ResolveModel::ProbeCached { cached, .. } => cached,
            ResolveModel::ProbePrimary { joined } => joined,
            ResolveModel::ProbeIndex { index } => index,
            _ => Seq::empty(),
        }
    }

    /// Well-formedness carried by probe states: the raw request path kept for
    /// a cache fallthrough is a valid request path.
    pub open spec fn wf(self) -> bool {
        match self {
            ResolveModel::ProbeCached { path, .. } => valid_request_path(path),
            _ => true,
        }
    }

    /// Steps left until the machine reaches a final state.
    pub open spec fn rank(self) -> nat {
        match self {
            ResolveModel::ProbeCached { .. } => 3,
            ResolveModel::ProbePrimary { .. } => 2,
            ResolveModel::ProbeIndex { .. } => 1,
            _ => 0,
        }
    }
}

/// The starting state: probe the cached resolution when one is known,
/// otherwise probe the primary target directly.
pub open spec fn begin_model(cached: Option<Seq<u8>>, root: Seq<u8>, path: Seq<u8>) -> ResolveModel {
    match cached {
        Option::Some(c) => ResolveModel::ProbeCached { cached: c, root, path },
        Option::None => ResolveModel::ProbePrimary { joined: primary_target(root, path) },
    }
}

/// One transition of the resolution machine on a probe outcome.
///
/// A cached path that opens is served as it stands; any failure to open it
/// falls through to a fresh resolution from the raw request path. The primary
/// target is served when it opens as a file; a directory, or a path that does
/// not exist, retries the directory-index fallback; any other failure is a
/// miss. The fallback target is served only when it opens as a file.
pub open spec fn step_model(s: ResolveModel, outcome: ProbeOutcome) -> ResolveModel
    recommends
        s.is_probe(),
{
    match s {
        ResolveModel::ProbeCached { cached, root, path } => match outcome {
            ProbeOutcome::FileOpened => ResolveModel::Resolved { path: cached },
            _ => ResolveModel::ProbePrimary { joined: primary_target(root, path) },
        },
        ResolveModel::ProbePrimary { joined } => match outcome {
            ProbeOutcome::FileOpened => ResolveModel::Resolved { path: joined },
            ProbeOutcome::IsDirectory => ResolveModel::ProbeIndex { index: with_index(joined) },
            ProbeOutcome::NotFound => ResolveModel::ProbeIndex { index: with_index(joined) },
            ProbeOutcome::OtherError => ResolveModel::Miss,
        },
        ResolveModel::ProbeIndex { index } => match outcome {
            ProbeOutcome::FileOpened => ResolveModel::Resolved { path: index },
            _ => ResolveModel::Miss,
        },
        _ => s,
    }
}

/// Builds the starting state of a resolution.
pub fn resolve_begin(cached: Option<Vec<u8>>, root: Vec<u8>, path: Vec<u8>) -> (s: ResolveState)
    requires
        valid_request_path(path@),
    ensures
        s@ == begin_model(
            match cached {
                Option::Some(c) => Option::Some(c@),
                Option::None => Option::<Seq<u8>>::None,
            },
            root@,
            path@,
        ),
        s@.wf(),
{
    match cached {
        Option::Some(c) => ResolveState::ProbeCached { cached: c, root, path },
        Option::None => {
            let joined = join_paths(&root, &normalize_request_path(&path));
            ResolveState::ProbePrimary { joined }
        },
    }
}

/// Advances the resolution machine by one probe outcome.
pub fn resolve_step(s: ResolveState, outcome: ProbeOutcome) -> (t: ResolveState)
    requires
        s@.is_probe(),
        s@.wf(),
    ensures
        t@ == step_model(s@, outcome),
        t@.wf(),
{
    match s {
        ResolveState::ProbeCached { cached, root, path } => match outcome {
            ProbeOutcome::FileOpened => ResolveState::Resolved { path: cached },
            _ => {
                let joined = join_paths(&root, &normalize_request_path(&path));
                ResolveState::ProbePrimary { joined }
            },
        },
        ResolveState::ProbePrimary { joined } => match outcome {
            ProbeOutcome::FileOpened => ResolveState::Resolved { path: joined },
            ProbeOutcome::IsDirectory => ResolveState::ProbeIndex { index: index_target(&joined) },
            ProbeOutcome::NotFound => ResolveState::ProbeIndex { index: index_target(&joined) },
            ProbeOutcome::OtherError => ResolveState::Miss,
        },
        ResolveState::ProbeIndex { index } => match outcome {
            ProbeOutcome::FileOpened => ResolveState::Resolved { path: index },
            _ => ResolveState::Miss,
        },
        _ => s,
    }
}

/// Strips the leading separator from a request path; the empty remainder
/// becomes `index.html`.
pub fn normalize_request_path(path: &Vec<u8>) -> (r: Vec<u8>)
    requires
        valid_request_path(path@),
    ensures
        r@ == normalized(path@),
{
    if path.len() <= 1 {
        let mut v: Vec<u8> = Vec::new();
        proof {
            reveal_strlit("index.html");
        }
        crate::text::append_ascii(&mut v, "index.html");
        proof {
            assert(v@ =~= normalized(path@));
        }
        v
    } else {
        let mut v: Vec<u8> = Vec::new();
        let n = path.len();
        let mut i: usize = 1;
        while i < n
            invariant
                1 <= i <= n,
                n == path@.len(),
                v@ == path@.subrange(1, i as int),
            decreases n - i,
        {
            let b = path[i];
            v.push(b);
            proof {
                assert(v@ =~= path@.subrange(1, i + 1));
            }
            i += 1;
        }
        v
    }
}

/// Joins a relative path under a base path, as `joined_path` states.
pub fn join_paths(base: &Vec<u8>, rel: &Vec<u8>) -> (r: Vec<u8>)
    ensures
        r@ == joined_path(base@, rel@),
{
    if rel.len() > 0 && rel[0] == '/' as u8 {
        let mut v: Vec<u8> = Vec::new();
        crate::text::append_bytes(&mut v, rel);
        proof {
            assert(v@ =~= joined_path(base@, rel@));
        }
        v
    } else if base.len() == 0 {
        let mut v: Vec<u8> = Vec::new();
        crate::text::append_bytes(&mut v, rel);
        proof {
            assert(v@ =~= joined_path(base@, rel@));
        }
        v
    } else {
        let mut v: Vec<u8> = Vec::new();
        crate::text::append_bytes(&mut v, base);
        if base[base.len() - 1] != '/' as u8 {
            v.push('/' as u8);
        }
        crate::text::append_bytes(&mut v, rel);
        proof {
            assert(v@ =~= joined_path(base@, rel@));
        }
        v
    }
}

/// The directory-index fallback target for a probed path.
pub fn index_target(p: &Vec<u8>) -> (r: Vec<u8>)
    ensures
        r@ == with_index(p@),
{
    let mut rel: Vec<u8> = Vec::new();
    proof {
        reveal_strlit("./index.html");
    }
    crate::text::append_ascii(&mut rel, "./index.html");
    join_paths(p, &rel)
}

/// The outcome of a whole resolution against a filesystem model `fs`, which
/// gives the outcome of opening each path: a cached path that still opens is
/// served as cached; otherwise the primary target is probed, with the
/// directory-index fallback on a directory or an absent entry; every other
/// failure is a miss.
pub open spec fn resolution_spec(
    fs: spec_fn(Seq<u8>) -> ProbeOutcome,
    cached: Option<Seq<u8>>,
    root: Seq<u8>,
    path: Seq<u8>,
) -> Option<Seq<u8>>
    recommends
        valid_request_path(path),
{
    if cached matches Option::Some(c) && fs(c) == ProbeOutcome::FileOpened {
        Option::Some(cached->Some_0)
    } else {
        fresh_resolution(fs, root, path)
    }
}

/// The outcome of a resolution that ignores the cache.
pub open spec fn fresh_resolution(
    fs: spec_fn(Seq<u8>) -> ProbeOutcome,
    root: Seq<u8>,
    path: Seq<u8>,
) -> Option<Seq<u8>>
    recommends
        valid_request_path(path),
{
    let joined = primary_target(root, path);
    match fs(joined) {
        ProbeOutcome::FileOpened => Option::Some(joined),
        ProbeOutcome::OtherError => Option::None,
        _ => if fs(with_index(joined)) == ProbeOutcome::FileOpened {
            Option::Some(with_index(joined))
        } else {
            Option::None
        },
    }
}

/// Runs the machine to a final state, answering every probe from `fs`.
pub open spec fn run_model(fs: spec_fn(Seq<u8>) -> ProbeOutcome, s: ResolveModel) -> ResolveModel
    decreases s.rank(),
{
    if s.is_probe() {
        run_model(fs, step_model(s, fs(s.probe_target())))
    } else {
        s
    }
}

/// One unfolding of `run_model`.
proof fn lemma_run_unfold(fs: spec_fn(Seq<u8>) -> ProbeOutcome, s: ResolveModel)
    ensures
        s.is_probe() ==> run_model(fs, s) == run_model(fs, step_model(s, fs(s.probe_target()))),
        !s.is_probe() ==> run_model(fs, s) == s,
{
}

/// The machine meets the resolution model: driven from its starting state
/// with every probe answered from `fs`, it ends `Resolved` exactly on the
/// path `resolution_spec` names, and `Miss` exactly when resolution misses.
pub proof fn lemma_machine_meets_resolution(
    fs: spec_fn(Seq<u8>) -> ProbeOutcome,
    cached: Option<Seq<u8>>,
    root: Seq<u8>,
    path: Seq<u8>,
)
    requires
        valid_request_path(path),
    ensures
        run_model(fs, begin_model(cached, root, path)) == (match resolution_spec(
            fs,
            cached,
            root,
            path,
        ) {
            Option::Some(p) => ResolveModel::Resolved { path: p },
            Option::None => ResolveModel::Miss,
        }),
{
    let joined = primary_target(root, path);
    let primary = ResolveModel::ProbePrimary { joined };
    lemma_run_unfold(fs, primary);
    match fs(joined) {
        ProbeOutcome::FileOpened => {
            lemma_run_unfold(fs, ResolveModel::Resolved { path: joined });
        },
        ProbeOutcome::OtherError => {
            lemma_run_unfold(fs, ResolveModel::Miss);
        },
        _ => {
            let idx = ResolveModel::ProbeIndex { index: with_index(joined) };
            lemma_run_unfold(fs, idx);
            lemma_run_unfold(fs, step_model(idx, fs(with_index(joined))));
        },
    }
    assert(run_model(fs, primary) == (match fresh_resolution(fs, root, path) {
        Option::Some(p) => ResolveModel::Resolved { path: p },
        Option::None => ResolveModel::Miss,
    }));
    match cached {
        Option::Some(c) => {
            let start = ResolveModel::ProbeCached { cached: c, root, path };
            lemma_run_unfold(fs, start);
            if fs(c) == ProbeOutcome::FileOpened {
                lemma_run_unfold(fs, ResolveModel::Resolved { path: c });
            }
        },
        Option::None => {},
    }
}

/// Cache coherence: when the cached path no longer opens — for instance, the
/// underlying file was deleted — the resolution outcome is exactly that of a
/// fresh resolution of the raw request path, as if no cache entry existed.
pub proof fn lemma_cache_coherence(
    fs: spec_fn(Seq<u8>) -> ProbeOutcome,
    cached: Seq<u8>,
    root: Seq<u8>,
    path: Seq<u8>,
)
    requires
        valid_request_path(path),
        fs(cached) != ProbeOutcome::FileOpened,
    ensures
        resolution_spec(fs, Option::Some(cached), root, path) == resolution_spec(
            fs,
            Option::None,
            root,
            path,
        ),
{
}

/// Directory-index fallback: when the primary target is a directory or does
/// not exist at all, and its `index.html` fallback opens as a file, the
/// request resolves to the fallback path.
pub proof fn lemma_directory_index_fallback(
    fs: spec_fn(Seq<u8>) -> ProbeOutcome,
    root: Seq<u8>,
    path: Seq<u8>,
)
    requires
        valid_request_path(path),
        fs(primary_target(root, path)) == ProbeOutcome::IsDirectory || fs(
            primary_target(root, path),
        ) == ProbeOutcome::NotFound,
        fs(with_index(primary_target(root, path))) == ProbeOutcome::FileOpened,
    ensures
        fresh_resolution(fs, root, path) == Option::Some(with_index(primary_target(root, path))),
{
}

/// An existing regular file is served as itself: when the primary target
/// opens as a file, the request resolves to it.
pub proof fn lemma_existing_file_resolves(
    fs: spec_fn(Seq<u8>) -> ProbeOutcome,
    root: Seq<u8>,
    path: Seq<u8>,
)
    requires
        valid_request_path(path),
        fs(primary_target(root, path)) == ProbeOutcome::FileOpened,
    ensures
        fresh_resolution(fs, root, path) == Option::Some(primary_target(root, path)),
{
}

/// A root request resolves to `index.html` at the root: the primary target
/// of the bare separator path is `index.html` joined under the root, and
/// when that file opens, the request resolves to it.
pub proof fn lemma_root_request_targets_index(
    fs: spec_fn(Seq<u8>) -> ProbeOutcome,
    root: Seq<u8>,
)
    ensures
        primary_target(root, seq!['/' as u8]) == joined_path(root, ascii_bytes_of("index.html"@)),
        fs(joined_path(root, ascii_bytes_of("index.html"@))) == ProbeOutcome::FileOpened
            ==> fresh_resolution(fs, root, seq!['/' as u8]) == Option::Some(
            joined_path(root, ascii_bytes_of("index.html"@)),
        ),
{
}

/// A resolution misses exactly when the primary target fails for a reason
/// other than absence or being a directory, or when neither the primary
/// target nor its directory-index fallback opens as a file; every other
/// request is owed a served file.
pub proof fn lemma_miss_characterization(
    fs: spec_fn(Seq<u8>) -> ProbeOutcome,
    root: Seq<u8>,
    path: Seq<u8>,
)
    requires
        valid_request_path(path),
    ensures
        (fresh_resolution(fs, root, path) is None) <==> (fs(primary_target(root, path))
            == ProbeOutcome::OtherError || (fs(primary_target(root, path))
            != ProbeOutcome::FileOpened && fs(with_index(primary_target(root, path)))
            != ProbeOutcome::FileOpened)),
{
}

} // verus!
