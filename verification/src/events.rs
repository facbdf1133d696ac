use vstd::prelude::*;
use crate::envelope::{decode_messages, encode, json_valid, Envelope};
use crate::errors::SyncError;
use crate::gitstore::{
    commit_message_bytes, create_log_commit, duplicate_oid, new_revwalk, ref_head, revwalk_next,
    revwalk_push_glob, revwalk_push_ref, update_log_ref,
};
use crate::identity::Identity;
use crate::refnames::{own_log_ref, remote_log_glob};

verus! {

// A known gap, kept deliberately: envelopes are neither signed nor
// authenticated, so a reader trusts whatever the store's references reach.

/// Append one event to this peer's chain for `(identity, log_name)`.
///
/// The new envelope becomes a commit whose sole parent is the previous head
/// of the peer's log reference (no parent for the first entry), and the
/// reference moves to it atomically: if a concurrent writer moved it in
/// between, the race surfaces as `Conflict` rather than being overwritten.
/// A payload the codec does not accept (it does not parse, or its envelope
/// could not be read back) is rejected as `MalformedEnvelope`; store
/// failures surface as `StoreError`.
pub fn write(
    this_peer_id: &str,
    repo: &git2::Repository,
    identity: &Identity,
    log_name: &str,
    payload_json: &str,
) -> (r: Result<(), SyncError>)
    ensures
        r == Err::<(), SyncError>(SyncError::MalformedEnvelope) <==> !json_valid(payload_json@),
        r matches Err(e) ==> e == SyncError::MalformedEnvelope || e == SyncError::StoreError || e
            == SyncError::Conflict,
{
    let message = match encode(this_peer_id, payload_json) {
        Ok(m) => m,
        Err(e) => {
            return Err(e);
        },
    };
    let log_ref_name = own_log_ref(identity.encoded.as_str(), log_name);
    let prev_head = match ref_head(repo, log_ref_name.as_str()) {
        Ok(h) => h,
        Err(e) => {
            return Err(e);
        },
    };
    let parent = match &prev_head {
        Some(oid) => Some(duplicate_oid(oid)),
        None => None,
    };
    let new_commit = match create_log_commit(repo, message.as_str(), parent) {
        Ok(oid) => oid,
        Err(e) => {
            return Err(e);
        },
    };
    match update_log_ref(repo, log_ref_name.as_str(), new_commit, prev_head) {
        Ok(()) => Ok(()),
        Err(e) => Err(e),
    }
}

/// Read every envelope reachable for `(identity, log_name)`: the union of
/// this peer's own chain and every remote peer's chain in the identity's
/// namespace, each envelope exactly once, newest first as the store orders
/// commit time (children before parents as far as commit clocks are sane).
///
/// A pair never written yields an empty log, not an error. The first message
/// that does not decode aborts the whole read with `MalformedEnvelope`; the
/// exact shape of the decoded result is pinned down by
/// [`decode_messages`](crate::envelope::decode_messages), which this
/// function applies to the walked messages.
pub fn read(
    repo: &git2::Repository,
    identity: &Identity,
    log_name: &str,
) -> (r: Result<Vec<Envelope>, SyncError>)
    ensures
        r matches Err(e) ==> e == SyncError::StoreError || e == SyncError::MalformedEnvelope,
{
    let my_log_ref_name = own_log_ref(identity.encoded.as_str(), log_name);
    let remote_ref_glob = remote_log_glob(identity.encoded.as_str(), log_name);

    let mut walk = match new_revwalk(repo) {
        Ok(w) => w,
        Err(e) => {
            return Err(e);
        },
    };
    match revwalk_push_ref(&mut walk, my_log_ref_name.as_str()) {
        Ok(()) => (),
        Err(e) => {
            return Err(e);
        },
    }
    match revwalk_push_glob(&mut walk, remote_ref_glob.as_str()) {
        Ok(()) => (),
        Err(e) => {
            return Err(e);
        },
    }

    let mut messages: Vec<Vec<u8>> = Vec::new();
    // The walk yields every reachable commit exactly once, so it ends of its
    // own accord; the counter only convinces the termination checker, and
    // runs out strictly after the store's commit count does. Were it ever to
    // run out, the walk could not finish, and a store failure is the nearest
    // truthful reading of that.
    let mut remaining: usize = usize::MAX;
    loop
        invariant
            true,
        decreases remaining,
    {
        if remaining == 0 {
            return Err(SyncError::StoreError);
        }
        remaining = remaining - 1;
        match revwalk_next(&mut walk) {
            Ok(Some(oid)) => {
                match commit_message_bytes(repo, oid) {
                    Ok(message) => {
                        messages.push(message);
                    },
                    Err(e) => {
                        return Err(e);
                    },
                }
            },
            Ok(None) => {
                break;
            },
            Err(e) => {
                return Err(e);
            },
        }
    }
    decode_messages(&messages)
}

} // verus!
