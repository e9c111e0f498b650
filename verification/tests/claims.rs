use reddit_news_relay::store::{claim_outcome, ClaimOutcome, InsertStatus};
use std::collections::HashSet;

fn insert(rows: &mut HashSet<String>, id: &str) -> InsertStatus {
    if rows.insert(id.to_string()) {
        InsertStatus::Inserted
    } else {
        InsertStatus::Rejected { unique_violation: true }
    }
}

#[test]
fn written_row_is_a_claim() {
    assert_eq!(claim_outcome(InsertStatus::Inserted), ClaimOutcome::Claimed);
}

#[test]
fn unique_violation_means_already_exists() {
    assert_eq!(
        claim_outcome(InsertStatus::Rejected { unique_violation: true }),
        ClaimOutcome::AlreadyExists
    );
}

#[test]
fn other_database_error_is_a_store_error() {
    assert_eq!(
        claim_outcome(InsertStatus::Rejected { unique_violation: false }),
        ClaimOutcome::StoreError
    );
}

#[test]
fn failed_insert_is_a_store_error() {
    assert_eq!(claim_outcome(InsertStatus::Failed), ClaimOutcome::StoreError);
}

#[test]
fn claiming_twice_claims_once() {
    let mut rows = HashSet::new();
    assert_eq!(claim_outcome(insert(&mut rows, "1abcde")), ClaimOutcome::Claimed);
    assert_eq!(claim_outcome(insert(&mut rows, "1abcde")), ClaimOutcome::AlreadyExists);
    assert_eq!(claim_outcome(insert(&mut rows, "other")), ClaimOutcome::Claimed);
    assert_eq!(claim_outcome(insert(&mut rows, "1abcde")), ClaimOutcome::AlreadyExists);
    assert_eq!(claim_outcome(insert(&mut rows, "1abcde")), ClaimOutcome::AlreadyExists);
    assert_eq!(rows.len(), 2);
}
