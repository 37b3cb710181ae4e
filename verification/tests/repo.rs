//! Repository lifecycle, identifier parsing and the task registry.

use spork::repo::RepoCore;
use spork::tasks::TaskRegistry;
use spork::RepoError;

#[test]
fn peer_id_is_stable() {
    let r = RepoCore::new("peer-42".to_string());
    assert_eq!(r.peer_id(), "peer-42");
    assert_eq!(r.peer_id(), "peer-42");
}

#[test]
fn running_repo_passes_the_gate() {
    let r = RepoCore::new("p".to_string());
    assert!(r.check_running().is_ok());
}

#[test]
fn stopped_repo_fails_the_gate() {
    let mut r = RepoCore::new("p".to_string());
    r.stop();
    assert_eq!(r.check_running(), Err(RepoError::RepositoryStopped));
}

#[test]
fn stop_is_idempotent() {
    let mut r = RepoCore::new("p".to_string());
    r.stop();
    r.stop();
    assert_eq!(r.check_running(), Err(RepoError::RepositoryStopped));
    assert_eq!(r.peer_id(), "p");
}

#[test]
fn task_registry_registers_and_drains() {
    let mut reg: TaskRegistry<u32> = TaskRegistry::new();
    assert_eq!(reg.len(), 0);
    reg.register(7);
    reg.register(9);
    assert_eq!(reg.len(), 2);
    let drained = reg.drain_all();
    assert_eq!(drained, vec![7, 9]);
    assert_eq!(reg.len(), 0);
}

#[test]
fn draining_twice_leaves_no_tasks() {
    let mut reg: TaskRegistry<u32> = TaskRegistry::new();
    reg.register(1);
    let first = reg.drain_all();
    assert_eq!(first, vec![1]);
    let second = reg.drain_all();
    assert!(second.is_empty());
    assert_eq!(reg.len(), 0);
}

#[test]
fn invalid_document_id_is_rejected() {
    let r = spork::ident::parse_document_url("not-a-valid-id");
    assert_eq!(r.unwrap_err(), RepoError::InvalidDocumentId);
}

#[test]
fn prefixed_and_bare_identifiers_resolve_alike() {
    let id = "00000000-0000-0000-0000-0000000000aa"
        .parse::<samod_core::DocumentId>()
        .unwrap();
    let canonical = format!("{}", id);
    let bare = spork::ident::parse_document_url(&canonical).unwrap();
    let prefixed = spork::ident::parse_document_url(&format!("automerge:{}", canonical)).unwrap();
    assert_eq!(bare, id);
    assert_eq!(prefixed, id);
}

#[test]
fn only_one_prefix_is_stripped() {
    assert_eq!(spork::ident::strip_scheme_prefix("automerge:abc"), "abc");
    assert_eq!(spork::ident::strip_scheme_prefix("abc"), "abc");
    assert_eq!(spork::ident::strip_scheme_prefix("automerge:automerge:x"), "automerge:x");
    assert_eq!(spork::ident::strip_scheme_prefix("automerge"), "automerge");
    assert_eq!(spork::ident::strip_scheme_prefix(""), "");
}

#[test]
fn well_formed_endpoint_passes() {
    let r = RepoCore::new("p".to_string());
    assert!(r.check_endpoint("ws://localhost:3030").is_ok());
    assert!(r.check_endpoint("wss://sync.example.org").is_ok());
}

#[test]
fn malformed_endpoint_is_rejected() {
    let r = RepoCore::new("p".to_string());
    assert_eq!(r.check_endpoint(""), Err(RepoError::InvalidEndpoint));
    assert_eq!(r.check_endpoint("ws://exa mple"), Err(RepoError::InvalidEndpoint));
}

#[test]
fn error_messages_name_each_failure() {
    assert_eq!(RepoError::InvalidEndpoint.message(), "invalid endpoint URL");
    assert_eq!(RepoError::InvalidDocumentId.message(), "invalid document ID");
    assert_eq!(RepoError::ConnectionFailure.message(), "failed to connect");
    assert_eq!(RepoError::RepositoryStopped.message(), "repository stopped");
    assert_eq!(RepoError::DocumentOperationFailure.message(), "document operation failed");
    assert_eq!(RepoError::SerializationFailure.message(), "failed to serialize document");
}
