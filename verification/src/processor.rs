//! The processor: the per-slot serving state — root path, not-found page,
//! concurrent resolution cache — and the pair of processors whose active
//! slot can be reset and swapped without touching the other.
//!
//! The resolution cache is a concurrent map shared between tasks; nothing is
//! promised of what a lookup returns, and the resolution machine is verified
//! for every value the cache can hand back. The cache is meant to hold only
//! paths that resolved successfully at least once, and misses are never
//! recorded.
use vstd::prelude::*;

verus! {

use crate::resolve::{ResolveState, begin_model, resolve_begin, valid_request_path};
use crate::response::{not_found_response, not_found_response_spec};
use crate::text::{ascii_bytes_of, ascii_vec, opt_bytes_view};

#[verifier::external_type_specification]
#[verifier::external_body]
#[verifier::reject_recursive_types(K)]
#[verifier::reject_recursive_types(V)]
pub struct ExCHashMap<K, V>(chashmap::CHashMap<K, V>);

/// Relies on chashmap::CHashMap::new: creates the empty concurrent
/// resolution map.
#[verifier::external_body]
fn cache_new() -> chashmap::CHashMap<Vec<u8>, Vec<u8>> {
    chashmap::CHashMap::new()
}

/// Relies on chashmap::CHashMap::get: hands back a resolution previously
/// recorded under the key, when one is present. The map is shared between
/// concurrent tasks, so nothing is promised of which value, if any, comes
/// back; every caller is verified for every possible answer.
#[verifier::external_body]
fn cache_get(m: &chashmap::CHashMap<Vec<u8>, Vec<u8>>, key: &Vec<u8>) -> Option<Vec<u8>> {
    m.get(key).map(|guard| (*guard).clone())
}

/// Relies on chashmap::CHashMap::contains_key: whether the key currently has
/// an entry; the answer may be stale by the time it is used.
#[verifier::external_body]
fn cache_contains(m: &chashmap::CHashMap<Vec<u8>, Vec<u8>>, key: &Vec<u8>) -> bool {
    m.contains_key(key)
}

/// Relies on chashmap::CHashMap::insert: records a resolution under the
/// request path, replacing any entry a concurrent identical request may have
/// put there — a benign, idempotent race.
#[verifier::external_body]
fn cache_insert(m: &chashmap::CHashMap<Vec<u8>, Vec<u8>>, key: Vec<u8>, value: Vec<u8>) {
    let _ = m.insert(key, value);
}

/// The built-in not-found page, served whenever no custom page is
/// configured.
pub open spec fn default_page_spec() -> Seq<u8> {
    ascii_bytes_of(
        "<!DOCTYPE html><html><head><title>404 Not Found</title></head><body><h1>404 Not Found</h1><p>The requested resource could not be found.</p></body></html>"@,
    )
}

/// Builds the built-in not-found page.
pub fn default_not_found_page() -> (r: Vec<u8>)
    ensures
        r@ == default_page_spec(),
{
    proof {
        reveal_strlit(
            "<!DOCTYPE html><html><head><title>404 Not Found</title></head><body><h1>404 Not Found</h1><p>The requested resource could not be found.</p></body></html>",
        );
    }
    ascii_vec(
        "<!DOCTYPE html><html><head><title>404 Not Found</title></head><body><h1>404 Not Found</h1><p>The requested resource could not be found.</p></body></html>",
    )
}

/// One processor's serving state.
pub struct ProcessorInner {
    /// The directory request paths are resolved under.
    pub root_path: Vec<u8>,
    /// The page served as the body of every not-found response.
    pub not_found_page: Vec<u8>,
    /// Concurrent memo of successful resolutions: request path to the
    /// filesystem path it resolved to.
    pub resolved_paths: chashmap::CHashMap<Vec<u8>, Vec<u8>>,
}

/// The configuration a freshly built or reset processor holds: the current
/// directory as root, and the built-in not-found page.
pub open spec fn has_default_config(p: ProcessorInner) -> bool {
    p.root_path@ == ascii_bytes_of("."@) && p.not_found_page@ == default_page_spec()
}

impl ProcessorInner {
    /// A processor serving the current directory.
    pub fn new() -> (s: Self)
        ensures
            has_default_config(s),
    {
        proof {
            reveal_strlit(".");
        }
        ProcessorInner {
            root_path: ascii_vec("."),
            not_found_page: default_not_found_page(),
            resolved_paths: cache_new(),
        }
    }

    /// A processor serving the given root directory.
    pub fn root(root_path: Vec<u8>) -> (s: Self)
        ensures
            s.root_path@ == root_path@,
            s.not_found_page@ == default_page_spec(),
    {
        ProcessorInner {
            root_path,
            not_found_page: default_not_found_page(),
            resolved_paths: cache_new(),
        }
    }

    /// Replaces the whole configuration: default root, built-in not-found
    /// page, and an empty cache in place of the old one — the only eviction
    /// the cache ever sees.
    pub fn reset(&mut self)
        ensures
            has_default_config(*final(self)),
    {
        proof {
            reveal_strlit(".");
        }
        self.root_path = ascii_vec(".");
        self.not_found_page = default_not_found_page();
        self.resolved_paths = cache_new();
    }

    /// Starts resolving a request path against this processor: looks the
    /// path up in the resolution cache and builds the machine's starting
    /// state from whatever the cache answered.
    pub fn begin_resolution(&self, path: &Vec<u8>) -> (s: ResolveState)
        requires
            valid_request_path(path@),
        ensures
            exists|c: Option<Seq<u8>>|
                s@ == begin_model(c, self.root_path@, path@),
            s@.is_probe(),
            s@.wf(),
    {
        let cached = cache_get(&self.resolved_paths, path);
        let ghost c = opt_bytes_view(cached);
        let root = crate::text::copy_range(&self.root_path, 0, self.root_path.len());
        let p = crate::text::copy_range(path, 0, path.len());
        proof {
            assert(root@ =~= self.root_path@);
            assert(p@ =~= path@);
        }
        let s = resolve_begin(cached, root, p);
        proof {
            assert(s@ == begin_model(c, self.root_path@, path@));
        }
        s
    }

    /// Records a successful resolution in the cache, unless an entry for the
    /// request path is already present; a concurrent identical request may
    /// still insert the same mapping twice, which is idempotent.
    pub fn record_resolution(&self, path: &Vec<u8>, resolved: &Vec<u8>) {
        if !cache_contains(&self.resolved_paths, path) {
            let key = crate::text::copy_range(path, 0, path.len());
            let value = crate::text::copy_range(resolved, 0, resolved.len());
            cache_insert(&self.resolved_paths, key, value);
        }
    }

    /// The complete not-found response around this processor's configured
    /// page.
    pub fn not_found_reply(&self) -> (r: Vec<u8>)
        ensures
            r@ == not_found_response_spec(self.not_found_page@),
    {
        not_found_response(&self.not_found_page)
    }
}

/// The index of the standby slot: the complement of the active index
/// within the pair.
pub fn standby_index(active: u8) -> (r: u8)
    requires
        active <= 1,
    ensures
        r == 1 - active,
        r <= 1,
        r != active,
{
    if active == 0 {
        1
    } else {
        0
    }
}

/// Exactly two processors and the index of the active one. The active slot
/// serves requests; the other is standby, eligible for reset. The selector
/// never holds a value other than 0 or 1: here that is an invariant every
/// operation preserves, not a runtime check.
pub struct ProcessorPair {
    /// The slot serving requests when `active` is 0.
    pub slot0: ProcessorInner,
    /// The slot serving requests when `active` is 1.
    pub slot1: ProcessorInner,
    /// The index of the active slot; always 0 or 1.
    pub active: u8,
}

impl ProcessorPair {
    /// The selector stays within the pair.
    pub open spec fn wf(self) -> bool {
        self.active <= 1
    }

    /// The slot at an index.
    pub open spec fn slot_of(self, i: int) -> ProcessorInner {
        if i == 0 {
            self.slot0
        } else {
            self.slot1
        }
    }

    /// A pair whose two slots both serve the given root, with slot 0 active.
    pub fn root(root_path: Vec<u8>) -> (s: Self)
        ensures
            s.wf(),
            s.active == 0,
            s.slot0.root_path@ == root_path@,
            s.slot1.root_path@ == root_path@,
            s.slot0.not_found_page@ == default_page_spec(),
            s.slot1.not_found_page@ == default_page_spec(),
    {
        let root_copy = crate::text::copy_range(&root_path, 0, root_path.len());
        proof {
            assert(root_copy@ =~= root_path@);
        }
        ProcessorPair {
            slot0: ProcessorInner::root(root_copy),
            slot1: ProcessorInner::root(root_path),
            active: 0,
        }
    }

    /// A pair whose two slots both hold the default configuration.
    pub fn new() -> (s: Self)
        ensures
            s.wf(),
            s.active == 0,
            has_default_config(s.slot0),
            has_default_config(s.slot1),
    {
        ProcessorPair { slot0: ProcessorInner::new(), slot1: ProcessorInner::new(), active: 0 }
    }

    /// The index of the active slot.
    pub fn active_index(&self) -> (r: u8)
        ensures
            r == self.active,
    {
        self.active
    }

    /// The active slot, the one a newly dispatched request must use.
    pub fn active_slot(&self) -> (r: &ProcessorInner)
        requires
            self.wf(),
        ensures
            *r == self.slot_of(self.active as int),
    {
        if self.active == 0 {
            &self.slot0
        } else {
            &self.slot1
        }
    }

    /// Resets the standby slot — the complement of the active index — to the
    /// default configuration and reports its index; the active slot is left
    /// untouched and keeps serving.
    pub fn reset_unused(&mut self) -> (r: u8)
        requires
            old(self).wf(),
        ensures
            final(self).wf(),
            final(self).active == old(self).active,
            r == 1 - old(self).active,
            has_default_config(final(self).slot_of(r as int)),
            final(self).slot_of(old(self).active as int) == old(self).slot_of(
                old(self).active as int,
            ),
    {
        let unused = standby_index(self.active);
        if unused == 0 {
            self.slot0.reset();
        } else {
            self.slot1.reset();
        }
        unused
    }

    /// Resets the standby slot, then publishes it as the new active slot.
    /// Afterwards the active slot holds the default configuration, while the
    /// previously active slot — now standby — is exactly as it was, so
    /// requests dispatched to it before the switch complete against their
    /// original configuration.
    pub fn reset_and_switch(&mut self)
        requires
            old(self).wf(),
        ensures
            final(self).wf(),
            final(self).active == 1 - old(self).active,
            has_default_config(final(self).slot_of(final(self).active as int)),
            final(self).slot_of(old(self).active as int) == old(self).slot_of(
                old(self).active as int,
            ),
    {
        let reset_slot = self.reset_unused();
        self.active = reset_slot;
    }
}

} // verus!
