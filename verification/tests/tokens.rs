use backend::errors::BackendError;
use backend::ids::{RecordingId, TokenId};
use backend::ledger::TokenLedger;

fn token(v: u128) -> TokenId {
    TokenId::new(v)
}

#[test]
fn lock_succeeds_at_most_once() {
    let mut ledger = TokenLedger::new();
    let t = token(1);
    let parent = Some(RecordingId::new(100));
    ledger.create(t, parent).expect("create token");

    assert_eq!(ledger.lock(t), Some(parent));
    // A second consumption attempt observes the token as unavailable.
    assert_eq!(ledger.lock(t), None);
    assert_eq!(ledger.lock(t), None);
}

#[test]
fn lock_of_unknown_token_fails() {
    let mut ledger = TokenLedger::new();
    assert_eq!(ledger.lock(token(42)), None);
}

#[test]
fn release_restores_the_token() {
    let mut ledger = TokenLedger::new();
    let t = token(2);
    ledger.create(t, None).expect("create root token");
    assert_eq!(ledger.lock(t), Some(None));
    assert_eq!(ledger.lock(t), None);

    ledger.release(t);
    assert_eq!(ledger.lock(t), Some(None));
}

#[test]
fn release_is_idempotent() {
    let mut ledger = TokenLedger::new();
    let t = token(3);
    ledger.create(t, None).expect("create token");
    assert_eq!(ledger.lock(t), Some(None));
    ledger.release(t);
    ledger.release(t);
    ledger.release(token(999));
    assert_eq!(ledger.lock(t), Some(None));
}

#[test]
fn removed_token_never_reappears() {
    let mut ledger = TokenLedger::new();
    let t = token(4);
    ledger.create(t, None).expect("create token");
    ledger.remove(t);
    assert_eq!(ledger.lock(t), None);
    ledger.release(t);
    assert_eq!(ledger.lock(t), None);
    assert!(ledger.retrieve(t).is_none());
}

#[test]
fn create_rejects_a_reused_identifier() {
    let mut ledger = TokenLedger::new();
    let t = token(5);
    ledger.create(t, None).expect("create token");
    assert_eq!(ledger.create(t, None), Err(BackendError::IdAlreadyExists));
}

#[test]
fn retrieve_reports_the_row() {
    let mut ledger = TokenLedger::new();
    let t = token(6);
    let parent = Some(RecordingId::new(7));
    ledger.create(t, parent).expect("create token");
    let row = ledger.retrieve(t).expect("token exists");
    assert_eq!(row.id, t);
    assert_eq!(row.parent_id, parent);
    assert!(!row.locked);
}

#[test]
fn create_batch_issues_all_tokens() {
    let mut ledger = TokenLedger::new();
    let parent = RecordingId::new(50);
    let ids = vec![token(10), token(11), token(12), token(13)];
    let created = ledger.create_batch(parent, ids.clone()).expect("create batch");
    assert_eq!(created, ids);
    for t in ids {
        assert_eq!(ledger.lock(t), Some(Some(parent)));
    }
}
