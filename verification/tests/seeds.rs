use upstream_sync::identity::Identity;
use upstream_sync::refnames::{own_log_ref, remote_log_glob};
use upstream_sync::seeds::{accept_cached, ProjectSeedStore};

#[test]
fn seed_cache_set_then_get() {
    let dir = tempfile::tempdir().unwrap();
    let store = kv::Store::new(kv::Config::new(dir.path().join("kv"))).unwrap();
    let cache = ProjectSeedStore::new(&store).unwrap();
    let identity = Identity::new("urn-1".to_string());

    assert_eq!(cache.get(&identity), None);

    cache.set(&identity, &"https://seed.example/".to_string());
    assert_eq!(cache.get(&identity), Some("https://seed.example/".to_string()));

    // Overwritten on the next definitive fetch.
    cache.set(&identity, &"https://other.example/".to_string());
    assert_eq!(cache.get(&identity), Some("https://other.example/".to_string()));
}

#[test]
fn invalid_cached_entry_is_a_miss() {
    let dir = tempfile::tempdir().unwrap();
    let store = kv::Store::new(kv::Config::new(dir.path().join("kv"))).unwrap();
    let cache = ProjectSeedStore::new(&store).unwrap();
    let identity = Identity::new("urn-1".to_string());

    cache.set(&identity, &"not a url at all".to_string());
    assert_eq!(cache.get(&identity), None);
}

#[test]
fn cache_keys_are_per_identity() {
    let dir = tempfile::tempdir().unwrap();
    let store = kv::Store::new(kv::Config::new(dir.path().join("kv"))).unwrap();
    let cache = ProjectSeedStore::new(&store).unwrap();

    cache.set(&Identity::new("urn-1".to_string()), &"https://one.example/".to_string());
    assert_eq!(cache.get(&Identity::new("urn-2".to_string())), None);
    assert_eq!(
        cache.get(&Identity::new("urn-1".to_string())),
        Some("https://one.example/".to_string())
    );
}

#[test]
fn reference_name_scheme() {
    assert_eq!(
        own_log_ref("ns1", "issues"),
        "refs/namespaces/ns1/refs/notes/upstream/issues"
    );
    assert_eq!(
        remote_log_glob("ns1", "issues"),
        "refs/namespaces/ns1/refs/remotes/*/notes/upstream/issues"
    );
}

#[test]
fn acceptance_of_stored_values() {
    assert_eq!(accept_cached(None), None);
    assert_eq!(
        accept_cached(Some("https://seed.example/".to_string())),
        Some("https://seed.example/".to_string())
    );
    assert_eq!(accept_cached(Some("not a url at all".to_string())), None);
}
