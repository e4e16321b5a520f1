use k8s_basic_auth_translator::kubernetes::{
    kubeconfig_namespace, select_namespace, KubeContext,
};
use k8s_basic_auth_translator::repository::{CredentialStore, CsvError, Repository};

#[test]
fn csv_loads_entries_in_order() {
    let store = CredentialStore::from_csv(
        "id,username,password\nalice,alice,secret\nbob,bob,hunter2\n",
    )
    .unwrap();
    assert_eq!(store.entries.len(), 2);
    assert_eq!(store.entries[0].id, "alice");
    assert_eq!(store.entries[1].password, "hunter2");
}

#[test]
fn csv_skips_blank_lines() {
    let store =
        CredentialStore::from_csv("id,username,password\n\nalice,alice,secret\n\n").unwrap();
    assert_eq!(store.entries.len(), 1);
}

#[test]
fn csv_without_header_is_rejected() {
    assert_eq!(
        CredentialStore::from_csv("alice,alice,secret").err(),
        Some(CsvError::MissingHeader)
    );
    assert_eq!(CredentialStore::from_csv("").err(), Some(CsvError::MissingHeader));
}

#[test]
fn csv_with_wrong_field_count_is_rejected() {
    assert_eq!(
        CredentialStore::from_csv("id,username,password\nalice,alice").err(),
        Some(CsvError::MalformedRecord)
    );
    assert_eq!(
        CredentialStore::from_csv("id,username,password\na,b,c,d").err(),
        Some(CsvError::MalformedRecord)
    );
}

#[test]
fn header_only_csv_is_empty() {
    let store = CredentialStore::from_csv("id,username,password").unwrap();
    assert_eq!(store.entries.len(), 0);
    assert_eq!(store.lookup_id("alice", "secret"), None);
}

#[test]
fn lookup_id_matches_username_and_password() {
    let store = CredentialStore::from_csv(
        "id,username,password\nalice,alice,secret\nbob,bob,hunter2",
    )
    .unwrap();
    assert_eq!(store.lookup_id("alice", "secret"), Some("alice".to_string()));
    assert_eq!(store.lookup_id("bob", "hunter2"), Some("bob".to_string()));
    assert_eq!(store.lookup_id("alice", "hunter2"), None);
    assert_eq!(store.lookup_id("eve", "secret"), None);
}

#[test]
fn lookup_user_returns_credentials() {
    let store = CredentialStore::from_csv("id,username,password\nalice,emil,secret").unwrap();
    assert_eq!(
        store.lookup_user("alice"),
        Some(("emil".to_string(), "secret".to_string()))
    );
    assert_eq!(store.lookup_user("emil"), None);
}

#[test]
fn first_matching_entry_wins() {
    let store = CredentialStore::from_csv(
        "id,username,password\nfirst,alice,secret\nsecond,alice,secret",
    )
    .unwrap();
    assert_eq!(store.lookup_id("alice", "secret"), Some("first".to_string()));
}

#[test]
fn secret_entry_splits_on_first_colons() {
    let entry = CredentialStore::entry_from_secret("alice", "alice:secret").unwrap();
    assert_eq!(entry.id, "alice");
    assert_eq!(entry.username, "alice");
    assert_eq!(entry.password, "secret");

    let entry = CredentialStore::entry_from_secret("a", "u:p:extra").unwrap();
    assert_eq!(entry.username, "u");
    assert_eq!(entry.password, "p");

    assert!(CredentialStore::entry_from_secret("a", "no-colon").is_none());
}

#[test]
fn store_from_secret_entries_resolves_credentials() {
    let entries = vec![
        CredentialStore::entry_from_secret("alice", "alice:secret").unwrap(),
        CredentialStore::entry_from_secret("bob", "bob:hunter2").unwrap(),
    ];
    let store = CredentialStore::from_entries(entries);
    assert_eq!(store.lookup_id("bob", "hunter2"), Some("bob".to_string()));
    assert_eq!(
        store.lookup_user("alice"),
        Some(("alice".to_string(), "secret".to_string()))
    );
}

#[test]
fn namespace_prefers_kubeconfig_then_env_then_file() {
    assert_eq!(
        select_namespace(Some("kc".to_string()), Some("env".to_string()), Some("f".to_string())),
        "kc"
    );
    assert_eq!(
        select_namespace(None, Some("env".to_string()), Some("f".to_string())),
        "env"
    );
    assert_eq!(select_namespace(None, None, Some("f".to_string())), "f");
    assert_eq!(select_namespace(None, None, None), "default");
}

#[test]
fn kubeconfig_namespace_reads_current_context() {
    let contexts = vec![
        KubeContext { name: "one".to_string(), namespace: Some("ns-one".to_string()) },
        KubeContext { name: "two".to_string(), namespace: Some("ns-two".to_string()) },
    ];
    assert_eq!(
        kubeconfig_namespace(&contexts, &Some("two".to_string())),
        Some("ns-two".to_string())
    );
    assert_eq!(kubeconfig_namespace(&contexts, &Some("three".to_string())), None);
    assert_eq!(kubeconfig_namespace(&contexts, &None), None);

    let empty_ns = vec![KubeContext { name: "one".to_string(), namespace: Some(String::new()) }];
    assert_eq!(kubeconfig_namespace(&empty_ns, &Some("one".to_string())), None);

    let no_ns = vec![KubeContext { name: "one".to_string(), namespace: None }];
    assert_eq!(kubeconfig_namespace(&no_ns, &Some("one".to_string())), None);
}
