//! Field-level operations on a document handle.

use spork::doc::DocHandle;
use spork::RepoError;

fn doc() -> DocHandle {
    let id = "00000000-0000-0000-0000-000000000001"
        .parse::<samod_core::DocumentId>()
        .unwrap();
    DocHandle::new(id)
}

#[test]
fn string_round_trip() {
    let mut d = doc();
    assert!(d.set_string("title", "My Document").is_ok());
    assert_eq!(d.get_string("title"), Some("My Document".to_string()));
}

#[test]
fn string_overwrite_keeps_last_value() {
    let mut d = doc();
    d.set_string("k", "first").unwrap();
    d.set_string("k", "second").unwrap();
    assert_eq!(d.get_string("k"), Some("second".to_string()));
}

#[test]
fn empty_string_round_trip() {
    let mut d = doc();
    d.set_string("k", "").unwrap();
    assert_eq!(d.get_string("k"), Some(String::new()));
}

#[test]
fn get_string_absent_key_is_none() {
    let d = doc();
    assert_eq!(d.get_string("never-set"), None);
}

#[test]
fn get_string_on_text_object_is_none() {
    let mut d = doc();
    d.put_text("body", "hello").unwrap();
    assert_eq!(d.get_string("body"), None);
}

#[test]
fn get_text_on_string_field_is_none() {
    let mut d = doc();
    d.set_string("k", "plain").unwrap();
    assert!(d.get_text("k").is_none());
    assert!(d.get_text("absent").is_none());
}

#[test]
fn set_string_replaces_text_object() {
    let mut d = doc();
    let t = d.put_text("k", "text content").unwrap();
    d.set_string("k", "plain now").unwrap();
    assert_eq!(d.get_string("k"), Some("plain now".to_string()));
    assert_eq!(t.get(&d), Err(RepoError::DocumentOperationFailure));
}

#[test]
fn get_keys_lists_every_field_once() {
    let mut d = doc();
    assert!(d.get_keys().is_empty());
    d.set_string("alpha", "1").unwrap();
    d.set_string("beta", "2").unwrap();
    d.put_text("gamma", "3").unwrap();
    let mut keys = d.get_keys();
    keys.sort();
    assert_eq!(keys, vec!["alpha".to_string(), "beta".to_string(), "gamma".to_string()]);
}

#[test]
fn distinct_keys_do_not_interfere() {
    let mut d = doc();
    d.set_string("a", "va").unwrap();
    d.set_string("b", "vb").unwrap();
    assert_eq!(d.get_string("a"), Some("va".to_string()));
    assert_eq!(d.get_string("b"), Some("vb".to_string()));
}

#[test]
fn dump_of_empty_document_is_nonempty() {
    let mut d = doc();
    let bytes = d.dump();
    assert!(!bytes.is_empty());
}

#[test]
fn dump_leaves_document_unchanged() {
    let mut d = doc();
    d.set_string("k", "v").unwrap();
    let _ = d.dump();
    assert_eq!(d.get_string("k"), Some("v".to_string()));
}

#[test]
fn repeated_dump_returns_equal_bytes() {
    let mut d = doc();
    d.set_string("k", "v").unwrap();
    d.put_text("t", "body").unwrap();
    let first = d.dump();
    let second = d.dump();
    assert_eq!(first, second);
}

#[test]
fn document_id_and_url_round_trip() {
    let id = "00000000-0000-0000-0000-000000000002"
        .parse::<samod_core::DocumentId>()
        .unwrap();
    let d = DocHandle::new(id.clone());
    let url = d.url();
    assert!(url.starts_with("automerge:"));
    assert_eq!(url, format!("automerge:{}", d.document_id()));
    let resolved = spork::ident::parse_document_url(&url).unwrap();
    assert_eq!(resolved, id);
    let bare = spork::ident::parse_document_url(&d.document_id()).unwrap();
    assert_eq!(bare, id);
}
