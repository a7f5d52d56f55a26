use vstd::prelude::*;

use crate::model::{
    api_authoritative, direct_record, row_id, row_soft_deleted, DbRecord,
    MessageType, Record, RecordChange, RecordId,
};

verus! {

/// The first step of reconciling a database change: either the change is
/// settled from the row alone, or the entity must be fetched from the API.
#[derive(Clone, Debug, PartialEq)]
pub enum Resolution {
    Resolved(RecordChange),
    Fetch(RecordId),
}

/// What an API lookup by id came back with. A failed lookup carries the
/// HTTP status, where there was one, and the transport's error.
#[derive(Clone, Debug, PartialEq)]
pub enum FetchOutcome<E> {
    Found(Record),
    Failed(Option<u16>, E),
}

/// The HTTP status that means the entity no longer exists.
pub const NOT_FOUND: u16 = 404;

/// The reconciliation policy: a `Delete` message, or a row that reports
/// itself deleted, removes the entity; otherwise an API-authoritative entity
/// is fetched, and any other row becomes the record itself.
pub open spec fn plan(msg: MessageType, row: DbRecord) -> Resolution {
    if msg == MessageType::Delete || row_soft_deleted(row) {
        Resolution::Resolved(RecordChange::Delete(row_id(row)))
    } else if api_authoritative(row_id(row)) {
        Resolution::Fetch(row_id(row))
    } else {
        Resolution::Resolved(RecordChange::Update(direct_record(row).unwrap()))
    }
}

/// How a fetch of `id` settles the change: a found entity replaces the
/// cached one, a not-found answer removes it, any other failure is
/// handed back.
pub open spec fn settle<E>(id: RecordId, outcome: FetchOutcome<E>) -> Result<RecordChange, E> {
    match outcome {
        FetchOutcome::Found(r) => Ok(RecordChange::Update(r)),
        FetchOutcome::Failed(status, e) => if status == Some(NOT_FOUND) {
            Ok(RecordChange::Delete(id))
        } else {
            Err(e)
        },
    }
}

/// Decides what a `(msg, row)` change notification does to the snapshot,
/// or which entity must be fetched from the API to decide it.
pub fn plan_change(msg: MessageType, row: DbRecord) -> (r: Resolution)
    ensures
        r == plan(msg, row),
{
    let id = row.id();
    if msg == MessageType::Delete || row.soft_deleted() {
        return Resolution::Resolved(RecordChange::Delete(id));
    }
    match row {
        DbRecord::OstPool(x) => Resolution::Resolved(RecordChange::Update(Record::OstPool(x))),
        DbRecord::OstPoolOsts(x) => Resolution::Resolved(
            RecordChange::Update(Record::OstPoolOsts(x)),
        ),
        DbRecord::LnetConfiguration(x) => Resolution::Resolved(
            RecordChange::Update(Record::LnetConfiguration(x)),
        ),
        DbRecord::ManagedTargetMount(x) => Resolution::Resolved(
            RecordChange::Update(Record::ManagedTargetMount(x)),
        ),
        DbRecord::StratagemConfiguration(x) => Resolution::Resolved(
            RecordChange::Update(Record::StratagemConfig(x)),
        ),
        _ => Resolution::Fetch(id),
    }
}

/// Completes a reconciliation that needed a fetch of `id`. Only a
/// not-found status turns a failed lookup into a deletion.
pub fn complete_fetch<E>(id: RecordId, outcome: FetchOutcome<E>) -> (r: Result<RecordChange, E>)
    ensures
        r == settle(id, outcome),
{
    match outcome {
        FetchOutcome::Found(rec) => Ok(RecordChange::Update(rec)),
        FetchOutcome::Failed(status, e) => {
            match status {
                Some(code) => if code == NOT_FOUND {
                    Ok(RecordChange::Delete(id))
                } else {
                    Err(e)
                },
                None => Err(e),
            }
        },
    }
}

/// A `Delete` message removes the row's entity, whatever the row's own
/// soft-delete flag says.
pub proof fn lemma_delete_message_deletes(row: DbRecord)
    ensures
        plan(MessageType::Delete, row) == Resolution::Resolved(RecordChange::Delete(row_id(row))),
{
}

/// An inserted or updated row of a database-authoritative table that
/// reports itself deleted removes its entity.
pub proof fn lemma_soft_deleted_row_deletes(msg: MessageType, row: DbRecord)
    requires
        msg != MessageType::Delete,
        !api_authoritative(row_id(row)),
        row_soft_deleted(row),
    ensures
        plan(msg, row) == Resolution::Resolved(RecordChange::Delete(row_id(row))),
{
}

/// A live, inserted or updated row of an API-authoritative table is fetched,
/// and the entity that the fetch returns becomes the update.
pub proof fn lemma_fetched_entity_updates<E>(msg: MessageType, row: DbRecord, entity: Record)
    requires
        msg != MessageType::Delete,
        api_authoritative(row_id(row)),
        !row_soft_deleted(row),
    ensures
        plan(msg, row) == Resolution::Fetch(row_id(row)),
        settle(row_id(row), FetchOutcome::<E>::Found(entity)) == Ok::<RecordChange, E>(
            RecordChange::Update(entity),
        ),
{
}

/// A live, inserted or updated row of an API-authoritative table whose fetch
/// answers not-found removes its entity.
pub proof fn lemma_not_found_deletes<E>(msg: MessageType, row: DbRecord, err: E)
    requires
        msg != MessageType::Delete,
        api_authoritative(row_id(row)),
        !row_soft_deleted(row),
    ensures
        plan(msg, row) == Resolution::Fetch(row_id(row)),
        settle(row_id(row), FetchOutcome::Failed(Some(NOT_FOUND), err)) == Ok::<RecordChange, E>(
            RecordChange::Delete(row_id(row)),
        ),
{
}

} // verus!
