use upstream_sync::envelope::Envelope;
use upstream_sync::errors::SyncError;
use upstream_sync::events::read;
use upstream_sync::identity::Identity;

fn test_repo(dir: &tempfile::TempDir) -> git2::Repository {
    let repo = git2::Repository::init_bare(dir.path()).unwrap();
    let mut config = repo.config().unwrap();
    config.set_str("user.name", "test").unwrap();
    config.set_str("user.email", "test@example.com").unwrap();
    repo
}

fn zero_identity() -> Identity {
    Identity::new(git2::Oid::zero().to_string())
}

#[test]
fn test_write() {
    let temp_dir = tempfile::tempdir().unwrap();
    let repo = test_repo(&temp_dir);
    let peer_id = "hyb5izsjxqiu3yptyo79msmyf37i7cdkczhi7ycotgnp6a1s1iuo7y";
    let urn = zero_identity();
    let log_name = "asdf";

    let read_events = read(&repo, &urn, log_name).unwrap();

    assert!(read_events.is_empty());

    let events = (1..10u32).collect::<Vec<_>>();

    for event in &events {
        let payload = serde_json::to_string(event).unwrap();
        upstream_sync::events::write(peer_id, &repo, &urn, log_name, &payload).unwrap();
    }

    let read_events = read(&repo, &urn, log_name)
        .unwrap()
        .into_iter()
        .map(|wrapper| serde_json::from_str::<u32>(&wrapper.event).unwrap())
        .rev()
        .collect::<Vec<_>>();

    assert_eq!(read_events, events);
}

#[test]
fn empty_log_reads_empty() {
    let temp_dir = tempfile::tempdir().unwrap();
    let repo = test_repo(&temp_dir);
    let urn = zero_identity();

    let read_events = read(&repo, &urn, "never-written").unwrap();
    assert!(read_events.is_empty());
}

#[test]
fn multi_peer_union() {
    let temp_dir = tempfile::tempdir().unwrap();
    let repo = test_repo(&temp_dir);
    let urn = zero_identity();
    let log_name = "shared";

    // Peer A appends through the library, under its own log reference.
    for event in ["\"a1\"", "\"a2\""] {
        upstream_sync::events::write("peer-a", &repo, &urn, log_name, event).unwrap();
    }

    // Peer B's chain arrives as a remote-tracking reference; build it
    // directly in the store, with the same envelope encoding.
    let remote_ref = format!(
        "refs/namespaces/{}/refs/remotes/peer-b/notes/upstream/{}",
        urn.encoded, log_name
    );
    let signature = repo.signature().unwrap();
    let tree_id = repo.treebuilder(None).unwrap().write().unwrap();
    let tree = repo.find_tree(tree_id).unwrap();
    let mut parent: Option<git2::Commit> = None;
    for event in ["\"b1\"", "\"b2\""] {
        let message = upstream_sync::envelope::encode("peer-b", event).unwrap();
        let parents: Vec<&git2::Commit> = parent.iter().collect();
        let oid = repo
            .commit(Some(&remote_ref), &signature, &signature, &message, &tree, &parents)
            .unwrap();
        parent = Some(repo.find_commit(oid).unwrap());
    }

    let mut seen: Vec<(String, String)> = read(&repo, &urn, log_name)
        .unwrap()
        .into_iter()
        .map(|envelope: Envelope| (envelope.peer_id, envelope.event))
        .collect();
    seen.sort();

    let mut expected = vec![
        ("peer-a".to_string(), "\"a1\"".to_string()),
        ("peer-a".to_string(), "\"a2\"".to_string()),
        ("peer-b".to_string(), "\"b1\"".to_string()),
        ("peer-b".to_string(), "\"b2\"".to_string()),
    ];
    expected.sort();

    // No event lost, none duplicated.
    assert_eq!(seen, expected);
}

#[test]
fn malformed_payload_is_rejected() {
    let temp_dir = tempfile::tempdir().unwrap();
    let repo = test_repo(&temp_dir);
    let urn = zero_identity();

    let result = upstream_sync::events::write("peer-a", &repo, &urn, "log", "not structured");
    assert_eq!(result, Err(SyncError::MalformedEnvelope));

    // Nothing was committed by the rejected append.
    assert!(read(&repo, &urn, "log").unwrap().is_empty());
}

#[test]
fn malformed_entry_aborts_read() {
    let temp_dir = tempfile::tempdir().unwrap();
    let repo = test_repo(&temp_dir);
    let urn = zero_identity();
    let log_name = "log";

    // A commit whose message is not an envelope, on the own log reference.
    let own_ref = format!(
        "refs/namespaces/{}/refs/notes/upstream/{}",
        urn.encoded, log_name
    );
    let signature = repo.signature().unwrap();
    let tree_id = repo.treebuilder(None).unwrap().write().unwrap();
    let tree = repo.find_tree(tree_id).unwrap();
    repo.commit(Some(&own_ref), &signature, &signature, "not an envelope", &tree, &[])
        .unwrap();

    assert_eq!(read(&repo, &urn, log_name).unwrap_err(), SyncError::MalformedEnvelope);
}
