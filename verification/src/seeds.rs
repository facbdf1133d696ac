use vstd::prelude::*;
use crate::errors::SyncError;
use crate::identity::Identity;

verus! {

// The persistent key-value store is an external collaborator; only its
// get/set-by-string-key contract is used. Its types are declared so that
// verified code can hold a bucket; nothing is assumed of their contents.
#[verifier::external_type_specification]
#[verifier::external_body]
pub struct ExKvStore(kv::Store);

/// Holder for the external store's string-to-string bucket: its generic
/// bucket type cannot be declared to the verifier, so the value is kept
/// opaque behind this struct and reached only through the wrappers below.
#[verifier::external_body]
pub struct SeedBucket {
    bucket: kv::Bucket<'static, String, String>,
}

/// Whether `text` parses as a well-formed endpoint URL. Decided by the
/// parser below; parsing is a function of the text alone.
pub uninterp spec fn url_valid(text: Seq<char>) -> bool;

/// The URL obtained by joining a base endpoint with a path segment, or
/// nothing where the base does not parse or cannot be joined. A function of
/// the two texts alone.
pub uninterp spec fn url_joined(base: Seq<char>, segment: Seq<char>) -> Option<Seq<char>>;

/// Relies on url::Url::parse: accepts exactly the well-formed URLs.
#[verifier::external_body]
pub fn parse_url_ok(text: &str) -> (r: bool)
    ensures
        r == url_valid(text@),
{
    url::Url::parse(text).is_ok()
}

/// Relies on url::Url::parse, url::Url::join and url::Url::as_str: the
/// base, parsed and joined with the segment, rendered back to text.
#[verifier::external_body]
pub fn join_url(base: &str, segment: &str) -> (r: Option<String>)
    ensures
        match r {
            Some(joined) => url_joined(base@, segment@) == Some(joined@),
            None => url_joined(base@, segment@) is None,
        },
{
    let parsed = url::Url::parse(base).ok()?;
    let joined = parsed.join(segment).ok()?;
    Some(joined.as_str().to_owned())
}

/// Relies on kv::Store::bucket: opens (creating if absent) the named
/// string-to-string bucket.
#[verifier::external_body]
fn open_bucket(store: &kv::Store, name: &str) -> (r: Result<SeedBucket, SyncError>)
    ensures
        r matches Err(e) ==> e == SyncError::StoreError,
{
    match store.bucket(Some(name)) {
        Ok(bucket) => Ok(SeedBucket { bucket }),
        Err(_) => Err(SyncError::StoreError),
    }
}

/// Relies on kv::Bucket::get: the value stored under `key`, if any. What
/// comes back depends on the store's persisted state, so nothing more is
/// promised of the outcome.
#[verifier::external_body]
fn bucket_get(bucket: &SeedBucket, key: &String) -> (r: Result<
    Option<String>,
    SyncError,
>)
    ensures
        r matches Err(e) ==> e == SyncError::StoreError,
{
    bucket.bucket.get(key).map_err(|_| SyncError::StoreError)
}

/// Relies on kv::Bucket::set: persists `value` under `key`, replacing any
/// earlier value.
#[verifier::external_body]
fn bucket_set(bucket: &SeedBucket, key: &String, value: &String) -> (r: Result<(), SyncError>)
    ensures
        r matches Err(e) ==> e == SyncError::StoreError,
{
    match bucket.bucket.set(key, value) {
        Ok(_) => Ok(()),
        Err(_) => Err(SyncError::StoreError),
    }
}

/// The acceptance decision over what the seed bucket handed back: a store
/// error or a missing key was already a miss, and a stored value is
/// returned exactly when it still parses as a URL — a persisted entry that
/// went stale or unreadable is a miss too, never an error.
pub fn accept_cached(stored: Option<String>) -> (r: Option<String>)
    ensures
        r matches Some(endpoint) ==> stored == Some::<String>(endpoint) && url_valid(endpoint@),
        r is Some <==> (stored matches Some(value) && url_valid(value@)),
{
    match stored {
        Some(value) => {
            if parse_url_ok(value.as_str()) {
                Some(value)
            } else {
                None
            }
        },
        None => None,
    }
}

/// Persistent mapping from identity to the seed endpoint last known to
/// serve it, in a bucket of its own, apart from other persisted state.
///
/// The cache is an optimization, never a correctness dependency: a store
/// failure or a cached value that is no longer a well-formed URL is treated
/// as a miss, and a failed write is absorbed.
pub struct ProjectSeedStore {
    bucket: SeedBucket,
}

impl ProjectSeedStore {
    /// Open the dedicated seed bucket inside the external store.
    pub fn new(store: &kv::Store) -> (r: Result<ProjectSeedStore, SyncError>)
        ensures
            r matches Err(e) ==> e == SyncError::StoreError,
    {
        match open_bucket(store, "projects_seeds") {
            Ok(bucket) => Ok(ProjectSeedStore { bucket }),
            Err(e) => Err(e),
        }
    }

    /// Best-known seed endpoint for `project_urn`.
    ///
    /// A store error or a persisted entry that does not parse as a URL is a
    /// cache miss, never a hard error; whatever is returned is a well-formed
    /// URL. What is done with the store's answer is pinned one call down by
    /// [`accept_cached`], which this function applies to it.
    pub fn get(&self, project_urn: &Identity) -> (r: Option<String>)
        ensures
            r matches Some(endpoint) ==> url_valid(endpoint@),
    {
        let stored = match bucket_get(&self.bucket, &project_urn.encoded) {
            Ok(maybe_value) => maybe_value,
            Err(_) => None,
        };
        accept_cached(stored)
    }

    /// Record `seed_url` as the endpoint that served `project_urn`,
    /// overwriting any earlier record; a store failure is absorbed, as the
    /// cache is best-effort.
    pub fn set(&self, project_urn: &Identity, seed_url: &String) {
        let _ = bucket_set(&self.bucket, &project_urn.encoded, seed_url);
    }
}

} // verus!
