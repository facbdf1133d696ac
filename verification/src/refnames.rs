use vstd::prelude::*;
use vstd::string::StringExecFns;

verus! {

/// Reference that holds the head of this peer's own event chain for one
/// `(identity, log_name)` pair.
pub open spec fn own_log_ref_spec(namespace_id: Seq<char>, log_name: Seq<char>) -> Seq<char> {
    "refs/namespaces/"@ + namespace_id + "/refs/notes/upstream/"@ + log_name
}

/// Glob matching every remote peer's event-chain head for the same pair.
pub open spec fn remote_log_glob_spec(namespace_id: Seq<char>, log_name: Seq<char>) -> Seq<char> {
    "refs/namespaces/"@ + namespace_id + "/refs/remotes/*/notes/upstream/"@ + log_name
}

/// Refspec that publishes every log head of this peer's namespace to a seed,
/// under that seed's remote-tracking area for this peer.
pub open spec fn push_refspec_spec(namespace_id: Seq<char>, peer_id: Seq<char>) -> Seq<char> {
    "+refs/namespaces/"@ + namespace_id + "/refs/notes/upstream/*:refs/remotes/"@ + peer_id
        + "/notes/upstream/*"@
}

pub fn own_log_ref(namespace_id: &str, log_name: &str) -> (r: String)
    ensures
        r@ == own_log_ref_spec(namespace_id@, log_name@),
{
    let mut s = String::from_str("refs/namespaces/");
    s.append(namespace_id);
    s.append("/refs/notes/upstream/");
    s.append(log_name);
    s
}

pub fn remote_log_glob(namespace_id: &str, log_name: &str) -> (r: String)
    ensures
        r@ == remote_log_glob_spec(namespace_id@, log_name@),
{
    let mut s = String::from_str("refs/namespaces/");
    s.append(namespace_id);
    s.append("/refs/remotes/*/notes/upstream/");
    s.append(log_name);
    s
}

pub fn push_refspec(namespace_id: &str, peer_id: &str) -> (r: String)
    ensures
        r@ == push_refspec_spec(namespace_id@, peer_id@),
{
    let mut s = String::from_str("+refs/namespaces/");
    s.append(namespace_id);
    s.append("/refs/notes/upstream/*:refs/remotes/");
    s.append(peer_id);
    s.append("/notes/upstream/*");
    s
}

} // verus!
