use vstd::prelude::*;

verus! {

// The object store is an external collaborator: an opaque local database of
// commits and references with an atomic single-reference-update primitive.
// Its types are declared here so that verified code can carry its values;
// nothing is assumed of what they hold.
#[verifier::external_type_specification]
#[verifier::external_body]
pub struct ExRepository(git2::Repository);

#[verifier::external_type_specification]
#[verifier::external_body]
pub struct ExOid(git2::Oid);

#[verifier::external_type_specification]
#[verifier::external_body]
pub struct ExRevwalk<'a>(git2::Revwalk<'a>);

#[verifier::external_type_specification]
#[verifier::external_body]
pub struct ExGitError(git2::Error);

/// Relies on git2::Oid being a plain copyable id value.
#[verifier::external_body]
pub fn duplicate_oid(oid: &git2::Oid) -> (r: git2::Oid)
    ensures
        r == *oid,
{
    *oid
}

/// Relies on git2::Repository::find_reference and git2::Reference::target:
/// resolves a reference to the id it points at, `None` when the store has no
/// such reference. What comes back depends on the store's current state, so
/// nothing more is promised of the outcome.
#[verifier::external_body]
pub fn ref_head(repo: &git2::Repository, name: &str) -> (r: Result<Option<git2::Oid>, crate::errors::SyncError>)
    ensures
        r matches Err(e) ==> e == crate::errors::SyncError::StoreError,
{
    match repo.find_reference(name) {
        Ok(reference) => Ok(reference.target()),
        Err(err) if err.code() == git2::ErrorCode::NotFound => Ok(None),
        Err(_) => Err(crate::errors::SyncError::StoreError),
    }
}

/// Relies on git2::Repository::commit (with treebuilder, find_tree and
/// signature to build its arguments): writes a commit whose message is
/// `message`, whose tree is empty, whose author and committer are the store's
/// configured signature, and whose parents are exactly `parent` — without
/// moving any reference. Returns the new commit's id.
#[verifier::external_body]
pub fn create_log_commit(
    repo: &git2::Repository,
    message: &str,
    parent: Option<git2::Oid>,
) -> (r: Result<git2::Oid, crate::errors::SyncError>)
    ensures
        r matches Err(e) ==> e == crate::errors::SyncError::StoreError,
{
    let attempt = || -> Result<git2::Oid, git2::Error> {
        let tree_id = repo.treebuilder(None)?.write()?;
        let tree = repo.find_tree(tree_id)?;
        let signature = repo.signature()?;
        let parents = match parent {
            Some(id) => vec![repo.find_commit(id)?],
            None => vec![],
        };
        let parent_refs: Vec<&git2::Commit<'_>> = parents.iter().collect();
        repo.commit(None, &signature, &signature, message, &tree, &parent_refs)
    };
    attempt().map_err(|_| crate::errors::SyncError::StoreError)
}

/// Relies on git2::Repository::reference_matching: moves `name` to `new`
/// only if it still points at `expected` (at the zero id: only if it does
/// not exist yet). A concurrent move is reported by the store as a modified
/// or already-existing reference and surfaces here as `Conflict`.
#[verifier::external_body]
pub fn update_log_ref(
    repo: &git2::Repository,
    name: &str,
    new: git2::Oid,
    expected: Option<git2::Oid>,
) -> (r: Result<(), crate::errors::SyncError>)
    ensures
        r matches Err(e) ==> e == crate::errors::SyncError::Conflict || e == crate::errors::SyncError::StoreError,
{
    let current = expected.unwrap_or_else(git2::Oid::zero);
    match repo.reference_matching(name, new, true, current, "event log append") {
        Ok(_) => Ok(()),
        Err(err) if err.code() == git2::ErrorCode::Modified => Err(crate::errors::SyncError::Conflict),
        Err(err) if err.code() == git2::ErrorCode::Exists => Err(crate::errors::SyncError::Conflict),
        Err(_) => Err(crate::errors::SyncError::StoreError),
    }
}

/// Relies on git2::Repository::revwalk: a fresh ancestry walk over the store.
#[verifier::external_body]
pub fn new_revwalk<'r>(repo: &'r git2::Repository) -> (r: Result<git2::Revwalk<'r>, crate::errors::SyncError>)
    ensures
        r matches Err(e) ==> e == crate::errors::SyncError::StoreError,
{
    repo.revwalk().map_err(|_| crate::errors::SyncError::StoreError)
}

/// Relies on git2::Revwalk::push_ref: adds a reference's chain to the walk.
/// A reference the store does not have contributes nothing and is no error;
/// the store reports it with a generic code, so its message is inspected, as
/// the store gives no better signal.
#[verifier::external_body]
pub fn revwalk_push_ref(walk: &mut git2::Revwalk<'_>, name: &str) -> (r: Result<(), crate::errors::SyncError>)
    ensures
        r matches Err(e) ==> e == crate::errors::SyncError::StoreError,
{
    match walk.push_ref(name) {
        Ok(()) => Ok(()),
        Err(err) if err.message().ends_with("not found") => Ok(()),
        Err(_) => Err(crate::errors::SyncError::StoreError),
    }
}

/// Relies on git2::Revwalk::push_glob: adds every matching reference's chain
/// to the walk; a glob that matches nothing contributes nothing.
#[verifier::external_body]
pub fn revwalk_push_glob(walk: &mut git2::Revwalk<'_>, glob: &str) -> (r: Result<(), crate::errors::SyncError>)
    ensures
        r matches Err(e) ==> e == crate::errors::SyncError::StoreError,
{
    walk.push_glob(glob).map_err(|_| crate::errors::SyncError::StoreError)
}

/// Relies on git2::Revwalk::next: the next reachable commit id, each commit
/// once, in the store's default newest-first commit-time order (which puts
/// children before parents only as far as commit clocks are sane); `None`
/// when the walk is exhausted.
#[verifier::external_body]
pub fn revwalk_next(walk: &mut git2::Revwalk<'_>) -> (r: Result<Option<git2::Oid>, crate::errors::SyncError>)
    ensures
        r matches Err(e) ==> e == crate::errors::SyncError::StoreError,
{
    match walk.next() {
        Some(Ok(oid)) => Ok(Some(oid)),
        Some(Err(_)) => Err(crate::errors::SyncError::StoreError),
        None => Ok(None),
    }
}

/// Relies on git2::Repository::find_commit and git2::Commit::message_bytes:
/// the stored message of one commit, as raw bytes.
#[verifier::external_body]
pub fn commit_message_bytes(repo: &git2::Repository, oid: git2::Oid) -> (r: Result<
    Vec<u8>,
    crate::errors::SyncError,
>)
    ensures
        r matches Err(e) ==> e == crate::errors::SyncError::StoreError,
{
    match repo.find_commit(oid) {
        Ok(commit) => Ok(commit.message_bytes().to_vec()),
        Err(_) => Err(crate::errors::SyncError::StoreError),
    }
}

} // verus!
