use feluda::fetch::{license_from_detail, license_keys, Fetch, FetchAction};

const LIST: &str = r#"[
  {"key": "mit", "name": "MIT License", "spdx_id": "MIT"},
  {"name": "no key"},
  {"key": 7},
  "mit",
  {"key": "gpl-3.0"},
  {"key": "odd"}
]"#;

const MIT: &str = r#"{
  "key": "mit", "name": "MIT License", "spdx_id": "MIT",
  "permissions": ["commercial-use", "modifications", 3, null, "distribution"],
  "conditions": ["include-copyright"],
  "limitations": ["liability", "warranty"]
}"#;

#[test]
fn keys_of_the_list() {
    assert_eq!(
        license_keys(LIST),
        Some(vec!["mit".to_string(), "gpl-3.0".to_string(), "odd".to_string()])
    );
    assert_eq!(license_keys("[]"), Some(vec![]));
    assert_eq!(license_keys(r#"{"key": "mit"}"#), None);
    assert_eq!(license_keys("oops"), None);
    assert_eq!(license_keys(""), None);
}

#[test]
fn detail_with_all_fields() {
    let (id, license) = license_from_detail("mit", MIT).unwrap();
    assert_eq!(id, "MIT");
    assert_eq!(license.title, "MIT License");
    assert_eq!(license.spdx_id, "MIT");
    assert_eq!(license.permissions, vec!["commercial-use", "modifications", "distribution"]);
    assert_eq!(license.conditions, vec!["include-copyright"]);
    assert_eq!(license.limitations, vec!["liability", "warranty"]);
}

#[test]
fn detail_with_missing_fields_falls_back_to_the_key() {
    let (id, license) = license_from_detail("odd", r#"{"permissions": "all", "spdx_id": 4}"#).unwrap();
    assert_eq!(id, "odd");
    assert_eq!(license.title, "odd");
    assert_eq!(license.spdx_id, "odd");
    assert!(license.permissions.is_empty());
    assert!(license.conditions.is_empty());
    assert!(license.limitations.is_empty());
    let (id, license) = license_from_detail("k", "[1, 2]").unwrap();
    assert_eq!(id, "k");
    assert_eq!(license.title, "k");
    assert!(license_from_detail("k", "<html>").is_none());
    assert!(license_from_detail("k", "").is_none());
}

fn requested(action: &FetchAction) -> String {
    match action {
        FetchAction::RequestDetail(key) => key.clone(),
        other => panic!("expected a request for a detail, got {other:?}"),
    }
}

#[test]
fn fetch_walks_the_list_and_leaves_out_bad_entries() {
    let fetch = Fetch::new();
    assert!(!fetch.is_done());
    let (fetch, action) = fetch.step(None);
    assert!(matches!(action, FetchAction::RequestList));
    let (fetch, action) = fetch.step(Some(LIST.to_string()));
    assert_eq!(requested(&action), "mit");
    let (fetch, action) = fetch.step(Some(MIT.to_string()));
    assert_eq!(requested(&action), "gpl-3.0");
    let (fetch, action) = fetch.step(None);
    assert_eq!(requested(&action), "odd");
    assert!(!fetch.is_done());
    let (fetch, action) = fetch.step(Some("{}".to_string()));
    assert!(matches!(action, FetchAction::Finish));
    assert!(fetch.is_done());
    let (fetch, action) = fetch.step(Some(MIT.to_string()));
    assert!(matches!(action, FetchAction::Finish));
    let found = fetch.into_licenses();
    assert_eq!(found.len(), 2);
    assert_eq!(found.get("MIT").unwrap().title, "MIT License");
    assert_eq!(found.get("odd").unwrap().spdx_id, "odd");
    assert!(found.get("mit").is_none());
    assert!(found.get("gpl-3.0").is_none());
}

#[test]
fn fetch_skips_a_detail_that_is_no_json() {
    let (fetch, _) = Fetch::new().step(None);
    let (fetch, action) = fetch.step(Some(r#"[{"key": "a"}, {"key": "b"}]"#.to_string()));
    assert_eq!(requested(&action), "a");
    let (fetch, action) = fetch.step(Some("rate limited".to_string()));
    assert_eq!(requested(&action), "b");
    let (fetch, action) = fetch.step(Some(r#"{"spdx_id": "B-1.0"}"#.to_string()));
    assert!(matches!(action, FetchAction::Finish));
    let found = fetch.into_licenses();
    assert_eq!(found.len(), 1);
    assert_eq!(found.get("B-1.0").unwrap().title, "b");
}

#[test]
fn fetch_without_a_list_finds_nothing() {
    for reply in [None, Some("[]".to_string()), Some("{}".to_string()), Some("x".to_string())] {
        let (fetch, action) = Fetch::new().step(None);
        assert!(matches!(action, FetchAction::RequestList));
        let (fetch, action) = fetch.step(reply);
        assert!(matches!(action, FetchAction::Finish));
        assert!(fetch.is_done());
        assert!(fetch.into_licenses().is_empty());
    }
}

#[test]
fn later_entry_replaces_an_earlier_one_with_the_same_identifier() {
    let (fetch, _) = Fetch::new().step(None);
    let (fetch, _) = fetch.step(Some(r#"[{"key": "a"}, {"key": "b"}]"#.to_string()));
    let (fetch, _) = fetch.step(Some(r#"{"spdx_id": "X", "name": "first"}"#.to_string()));
    let (fetch, _) = fetch.step(Some(r#"{"spdx_id": "X", "name": "second"}"#.to_string()));
    let found = fetch.into_licenses();
    assert_eq!(found.len(), 1);
    assert_eq!(found.get("X").unwrap().title, "second");
}
