//! The runtime-updatable pair of backend URLs, shared by every in-flight
//! comparison request. Readers take a snapshot of the whole pair under one
//! read acquisition and writers replace the whole pair under one exclusive
//! acquisition, so no reader ever observes a half-updated mix of two pairs.

use vstd::prelude::*;
use vstd::rwlock::RwLock;

verus! {

/// The two backend URLs. Any strings are accepted: no well-formedness check
/// is made at this layer.
#[derive(Clone, Debug)]
pub struct Config {
    /// URL of backend "Model A".
    pub model_a_url: String,
    /// URL of backend "Model B".
    pub model_b_url: String,
}

/// `next` is `current` with a partial update applied: each named URL is
/// replaced, each absent one kept unchanged.
pub open spec fn updated_pair(
    current: Config,
    patch_a: Option<String>,
    patch_b: Option<String>,
    next: Config,
) -> bool {
    &&& (patch_a matches Some(u) ==> next.model_a_url == u)
    &&& (patch_a is None ==> next.model_a_url == current.model_a_url)
    &&& (patch_b matches Some(u) ==> next.model_b_url == u)
    &&& (patch_b is None ==> next.model_b_url == current.model_b_url)
}

/// Applies a partial update to a configuration pair: each parameter that is
/// present replaces the corresponding URL, each absent one leaves it
/// unchanged.
pub fn apply_update(current: &Config, patch_a: Option<String>, patch_b: Option<String>) -> (r:
    Config)
    ensures
        updated_pair(*current, patch_a, patch_b, r),
{
    let model_a_url = match patch_a {
        Some(u) => u,
        None => current.model_a_url.clone(),
    };
    let model_b_url = match patch_b {
        Some(u) => u,
        None => current.model_b_url.clone(),
    };
    Config { model_a_url, model_b_url }
}

/// An update that names only the A-side URL yields exactly that new A URL
/// and leaves the B URL untouched, so a later snapshot reflects the one
/// change and nothing else; symmetrically for the B side.
pub proof fn law_partial_update_keeps_other(current: Config, next: Config, url: String)
    ensures
        updated_pair(current, Some(url), None, next) ==> next.model_a_url == url
            && next.model_b_url == current.model_b_url,
        updated_pair(current, None, Some(url), next) ==> next.model_b_url == url
            && next.model_a_url == current.model_a_url,
        updated_pair(current, None, None, next) ==> next.model_a_url == current.model_a_url
            && next.model_b_url == current.model_b_url,
{
}

/// The body answered to a health query: a fixed `"ok"` status and the
/// configuration pair current at the time of the snapshot.
#[derive(Clone, Debug)]
pub struct HealthStatus {
    /// Always `"ok"`: the gateway itself has no failure states to report.
    pub status: String,
    /// URL of backend "Model A" at the time of the snapshot.
    pub model_a_url: String,
    /// URL of backend "Model B" at the time of the snapshot.
    pub model_b_url: String,
}

/// Builds the health body from a configuration snapshot: the status is the
/// literal `"ok"` and the two URLs are reported unchanged.
pub fn health_status(model_a_url: String, model_b_url: String) -> (h: HealthStatus)
    ensures
        h.status@ == "ok"@,
        h.model_a_url == model_a_url,
        h.model_b_url == model_b_url,
{
    HealthStatus { status: String::from_str("ok"), model_a_url, model_b_url }
}

/// The shared holder of the current configuration: a reader/writer lock
/// around the whole `Config`, so that the pair is always read and replaced
/// as a unit. Built on `vstd::rwlock::RwLock`, whose discipline (many
/// readers or one writer, never both) is itself verified.
pub struct ConfigStore {
    lock: RwLock<Config, spec_fn(Config) -> bool>,
}

impl ConfigStore {
    /// The store accepts any configuration pair: no URL validation is done
    /// at this layer.
    pub closed spec fn wf(self) -> bool {
        forall|v: Config| self.lock.inv(v)
    }

    /// Creates a store holding `initial`.
    pub fn new(initial: Config) -> (store: ConfigStore)
        ensures
            store.wf(),
    {
        let store = ConfigStore { lock: RwLock::new(initial, Ghost(|v: Config| true)) };
        proof {
            assert forall|v: Config| store.lock.inv(v) by {
                assert((|v: Config| true)(v));
            }
        }
        store
    }

    /// Snapshot of the current pair, `(model_a_url, model_b_url)`, under a
    /// single read acquisition: both strings come from one stored `Config`,
    /// never from two different updates. Which pair is current cannot be
    /// pinned in a contract here, since concurrent writers may replace it at
    /// any time between two calls.
    pub fn snapshot(&self) -> (String, String) {
        let handle = self.lock.acquire_read();
        let current = handle.borrow();
        let model_a_url = current.model_a_url.clone();
        let model_b_url = current.model_b_url.clone();
        handle.release_read();
        (model_a_url, model_b_url)
    }

    /// Applies a partial update under one exclusive acquisition and returns
    /// the pair read before it and the pair stored after it. Both fields are
    /// replaced together while the write lock is held, so concurrent readers
    /// see either the full old pair or the full new pair.
    pub fn update(&self, patch_a: Option<String>, patch_b: Option<String>) -> (r: (Config, Config))
        requires
            self.wf(),
        ensures
            updated_pair(r.0, patch_a, patch_b, r.1),
    {
        let (previous, write_handle) = self.lock.acquire_write();
        let next = apply_update(&previous, patch_a, patch_b);
        write_handle.release_write(next.clone());
        (previous, next)
    }
}

} // verus!
