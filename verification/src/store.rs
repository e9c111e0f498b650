//! The claim on a post identifier, as the caller of the store sees it.
//!
//! The store is a table keyed by post identifier under a uniqueness
//! constraint.  A claim is one insert; the constraint, not a lookup before
//! the insert, tells a known identifier from a new one.

use vstd::prelude::*;

verus! {

/// How one insert into the table ended.
#[derive(Clone, Copy, Debug, PartialEq, Eq, Structural)]
pub enum InsertStatus {
    /// The row was written.
    Inserted,
    /// The database turned the insert down, because of the uniqueness
    /// constraint or for another reason.
    Rejected { unique_violation: bool },
    /// The insert failed before the database answered it.
    Failed,
}

/// What a claim on an identifier came to.
#[derive(Clone, Copy, Debug, PartialEq, Eq, Structural)]
pub enum ClaimOutcome {
    /// The identifier was recorded now, for the first time.
    Claimed,
    /// The identifier had been recorded before.
    AlreadyExists,
    /// The store could not say.
    StoreError,
}

/// The outcome that an insert's end stands for.
pub open spec fn outcome_of(status: InsertStatus) -> ClaimOutcome {
    match status {
        InsertStatus::Inserted => ClaimOutcome::Claimed,
        InsertStatus::Rejected { unique_violation } => if unique_violation {
            ClaimOutcome::AlreadyExists
        } else {
            ClaimOutcome::StoreError
        },
        InsertStatus::Failed => ClaimOutcome::StoreError,
    }
}

/// Reads the end of an insert as the outcome of a claim: a written row is a
/// claim, a violated uniqueness constraint means the identifier is known, and
/// every other failure is an error of the store.
pub fn claim_outcome(status: InsertStatus) -> (outcome: ClaimOutcome)
    ensures
        outcome == outcome_of(status),
{
    match status {
        InsertStatus::Inserted => ClaimOutcome::Claimed,
        InsertStatus::Rejected { unique_violation } => {
            if unique_violation {
                ClaimOutcome::AlreadyExists
            } else {
                ClaimOutcome::StoreError
            }
        },
        InsertStatus::Failed => ClaimOutcome::StoreError,
    }
}

/// What the uniqueness constraint promises of an insert that the database
/// answers: with `rows` the identifiers in the table, the insert of a new one
/// is written, and the insert of one that is there is turned down for the
/// constraint and changes nothing.
pub open spec fn unique_insert(rows: Set<Seq<char>>, id: Seq<char>) -> (InsertStatus, Set<Seq<char>>) {
    if rows.contains(id) {
        (InsertStatus::Rejected { unique_violation: true }, rows)
    } else {
        (InsertStatus::Inserted, rows.insert(id))
    }
}

/// On a table that keeps the uniqueness constraint, the first claim on an
/// identifier is `Claimed` and records it; each claim after that, whatever
/// was inserted in between, is `AlreadyExists` and leaves the table as it
/// is.
pub proof fn lemma_claim_once(rows: Set<Seq<char>>, id: Seq<char>, between: Seq<Seq<char>>)
    ensures
        !rows.contains(id) ==> outcome_of(unique_insert(rows, id).0) == ClaimOutcome::Claimed,
        rows.contains(id) ==> outcome_of(unique_insert(rows, id).0) == ClaimOutcome::AlreadyExists,
        unique_insert(rows, id).1.contains(id),
        outcome_of(unique_insert(rows_after(unique_insert(rows, id).1, between), id).0)
            == ClaimOutcome::AlreadyExists,
        unique_insert(rows_after(unique_insert(rows, id).1, between), id).1 == rows_after(
            unique_insert(rows, id).1,
            between,
        ),
{
    lemma_rows_stay(unique_insert(rows, id).1, between, id);
}

/// The table after the identifiers of `ids` have been inserted in order.
pub open spec fn rows_after(rows: Set<Seq<char>>, ids: Seq<Seq<char>>) -> Set<Seq<char>>
    decreases ids.len(),
{
    if ids.len() == 0 {
        rows
    } else {
        unique_insert(rows_after(rows, ids.drop_last()), ids.last()).1
    }
}

/// No insert removes an identifier from the table.
pub proof fn lemma_rows_stay(rows: Set<Seq<char>>, ids: Seq<Seq<char>>, id: Seq<char>)
    requires
        rows.contains(id),
    ensures
        rows_after(rows, ids).contains(id),
    decreases ids.len(),
{
    if ids.len() > 0 {
        lemma_rows_stay(rows, ids.drop_last(), id);
    }
}

} // verus!
