use duners::cache::{cache_root, entry_path, CacheWrite};
use duners::client::Client;

#[test]
fn cache_path_is_root_identity_query() {
    assert_eq!(entry_path("/var/cache", "abc123", "42"), "/var/cache/abc123/42");
    let write = CacheWrite {
        identity: String::from("abc123"),
        key: String::from("42"),
        contents: String::from("{}"),
    };
    assert_eq!(write.path("/var/cache"), "/var/cache/abc123/42");
    assert_eq!(write.directory("/var/cache"), "/var/cache/abc123");
}

#[test]
fn cache_root_lies_below_home() {
    assert_eq!(cache_root("/home/ada"), "/home/ada/.duners/cache");
    assert_eq!(
        entry_path(&cache_root("/home/ada"), "6b", "3557348"),
        "/home/ada/.duners/cache/6b/3557348"
    );
}

#[test]
fn query_id_is_used_verbatim() {
    assert_eq!(entry_path("r", "id", "a b%c"), "r/id/a b%c");
    assert_eq!(entry_path("r", "id", ""), "r/id/");
}

#[test]
fn dune_test_save() {
    let query = "3557348";
    let results = "latest_query_result";
    let client = Client::new_with_key("test-key");
    let write = client.save(query, results);
    assert_eq!(write.identity, "746573742d6b6579");
    assert_eq!(write.key, "3557348");
    assert_eq!(write.contents, "latest_query_result");
    assert_eq!(
        write.path("/home/ada/.duners/cache"),
        "/home/ada/.duners/cache/746573742d6b6579/3557348"
    );
}

#[test]
fn urls_test_save() {
    let query = "3557348";
    let results = "latest_query_result";
    let client = Client::new_with_key("k");
    let write = client.save(query, results);
    assert_eq!(write.identity, client.id());
    assert_eq!(write.key, query);
    assert_eq!(write.contents, results);
    assert_eq!(write.directory("/c"), "/c/6b");
}

#[test]
fn different_queries_have_different_files() {
    let client = Client::new_with_key("k");
    let first = client.save("1", "a");
    let second = client.save("2", "a");
    assert_eq!(first.directory("/c"), second.directory("/c"));
    assert_ne!(first.path("/c"), second.path("/c"));
}

#[test]
fn different_credentials_have_different_directories() {
    let first = Client::new_with_key("k").save("1", "a");
    let second = Client::new_with_key("l").save("1", "a");
    assert_ne!(first.directory("/c"), second.directory("/c"));
}
