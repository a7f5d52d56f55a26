use warp_drive::cache::Cache;
use warp_drive::model::{
    AlertStateRecord, DbRecord, FsRecord, Host, ManagedHostRecord, ManagedTargetRecord,
    MessageType, OstPoolOstsRecord, OstPoolRecord, Record, RecordChange, RecordId,
    StratagemConfiguration, Target, VolumeNodeRecord,
};
use warp_drive::reconcile::{complete_fetch, plan_change, FetchOutcome, Resolution, NOT_FOUND};

fn target_row(id: u32) -> DbRecord {
    DbRecord::ManagedTarget(ManagedTargetRecord {
        id,
        name: "fs-OST0000".to_string(),
        not_deleted: Some(true),
    })
}

fn target(id: u32, label: &str) -> Target {
    Target {
        id,
        label: label.to_string(),
        kind: "OST".to_string(),
        filesystem_id: Some(1),
    }
}

fn host(id: u32, label: &str) -> Host {
    Host {
        id,
        label: label.to_string(),
        fqdn: format!("{}.local", label),
    }
}

#[test]
fn target_update_is_fetched_and_cached() {
    let mut cache = Cache::new();
    let step = plan_change(MessageType::Update, target_row(42));
    assert_eq!(step, Resolution::Fetch(RecordId::Target(42)));

    let t = target(42, "fs-OST0000");
    let change = complete_fetch::<String>(
        RecordId::Target(42),
        FetchOutcome::Found(Record::Target(t.clone())),
    )
    .unwrap();
    assert_eq!(change, RecordChange::Update(Record::Target(t.clone())));

    cache.apply_change(change);
    assert_eq!(cache.target.get(&42), Some(&t));
}

#[test]
fn target_delete_removes_entry() {
    let mut cache = Cache::new();
    cache.apply_change(RecordChange::Update(Record::Target(target(42, "old"))));
    assert!(cache.contains(RecordId::Target(42)));

    let step = plan_change(MessageType::Delete, target_row(42));
    assert_eq!(
        step,
        Resolution::Resolved(RecordChange::Delete(RecordId::Target(42)))
    );
    if let Resolution::Resolved(change) = step {
        cache.apply_change(change);
    }
    assert_eq!(cache.target.get(&42), None);
    assert!(!cache.contains(RecordId::Target(42)));
}

#[test]
fn pool_membership_insert_needs_no_fetch() {
    let mut cache = Cache::new();
    let row = OstPoolOstsRecord {
        id: 5,
        ostpool_id: 2,
        managedost_id: 9,
    };
    let step = plan_change(MessageType::Insert, DbRecord::OstPoolOsts(row.clone()));
    assert_eq!(
        step,
        Resolution::Resolved(RecordChange::Update(Record::OstPoolOsts(row.clone())))
    );
    if let Resolution::Resolved(change) = step {
        cache.apply_change(change);
    }
    assert_eq!(cache.ost_pool_osts.get(&5), Some(&row));
}

#[test]
fn host_not_found_deletes() {
    let mut cache = Cache::new();
    cache.apply_change(RecordChange::Update(Record::Host(host(7, "oss1"))));
    let row = DbRecord::ManagedHost(ManagedHostRecord {
        id: 7,
        fqdn: "oss1.local".to_string(),
        not_deleted: Some(true),
    });
    assert_eq!(
        plan_change(MessageType::Update, row),
        Resolution::Fetch(RecordId::Host(7))
    );
    let change = complete_fetch(
        RecordId::Host(7),
        FetchOutcome::Failed(Some(NOT_FOUND), "404 Not Found".to_string()),
    );
    assert_eq!(change, Ok(RecordChange::Delete(RecordId::Host(7))));
    cache.apply_change(change.unwrap());
    assert_eq!(cache.host.get(&7), None);
}

#[test]
fn host_not_found_when_absent_is_not_an_error() {
    let mut cache = Cache::new();
    let change = complete_fetch(
        RecordId::Host(7),
        FetchOutcome::Failed(Some(404), "gone".to_string()),
    )
    .unwrap();
    cache.apply_change(change);
    assert!(cache.host.is_empty());
}

#[test]
fn other_fetch_failures_propagate() {
    assert_eq!(
        complete_fetch::<String>(
            RecordId::Host(7),
            FetchOutcome::Failed(Some(500), "server error".to_string())
        ),
        Err("server error".to_string())
    );
    assert_eq!(
        complete_fetch::<String>(
            RecordId::Volume(3),
            FetchOutcome::Failed(None, "connection refused".to_string())
        ),
        Err("connection refused".to_string())
    );
}

#[test]
fn delete_message_wins_over_live_flag() {
    let rows = vec![
        target_row(1),
        DbRecord::ManagedFilesystem(FsRecord {
            id: 2,
            name: "fs".to_string(),
            not_deleted: Some(true),
        }),
        DbRecord::OstPoolOsts(OstPoolOstsRecord {
            id: 3,
            ostpool_id: 1,
            managedost_id: 1,
        }),
        DbRecord::AlertState(AlertStateRecord {
            id: 4,
            message: "raised".to_string(),
            active: Some(true),
        }),
    ];
    let ids = vec![
        RecordId::Target(1),
        RecordId::Filesystem(2),
        RecordId::OstPoolOsts(3),
        RecordId::ActiveAlert(4),
    ];
    for (row, id) in rows.into_iter().zip(ids) {
        assert_eq!(
            plan_change(MessageType::Delete, row),
            Resolution::Resolved(RecordChange::Delete(id))
        );
    }
}

#[test]
fn soft_deleted_db_row_deletes() {
    let pool = DbRecord::OstPool(OstPoolRecord {
        id: 8,
        name: "pool1".to_string(),
        filesystem_id: 1,
        not_deleted: None,
    });
    assert_eq!(
        plan_change(MessageType::Update, pool),
        Resolution::Resolved(RecordChange::Delete(RecordId::OstPool(8)))
    );
    let config = DbRecord::StratagemConfiguration(StratagemConfiguration {
        id: 3,
        filesystem_id: 1,
        interval: 60,
        state: "unconfigured".to_string(),
        not_deleted: Some(false),
    });
    assert_eq!(
        plan_change(MessageType::Insert, config),
        Resolution::Resolved(RecordChange::Delete(RecordId::StratagemConfig(3)))
    );
}

#[test]
fn live_db_row_becomes_the_record() {
    let pool = OstPoolRecord {
        id: 8,
        name: "pool1".to_string(),
        filesystem_id: 1,
        not_deleted: Some(true),
    };
    assert_eq!(
        plan_change(MessageType::Update, DbRecord::OstPool(pool.clone())),
        Resolution::Resolved(RecordChange::Update(Record::OstPool(pool)))
    );
}

#[test]
fn soft_deleted_api_row_deletes_without_fetch() {
    let row = DbRecord::ManagedHost(ManagedHostRecord {
        id: 7,
        fqdn: "oss1.local".to_string(),
        not_deleted: None,
    });
    assert_eq!(
        plan_change(MessageType::Update, row),
        Resolution::Resolved(RecordChange::Delete(RecordId::Host(7)))
    );
}

#[test]
fn inactive_alert_deletes_and_active_alert_is_fetched() {
    let inactive = DbRecord::AlertState(AlertStateRecord {
        id: 11,
        message: "cleared".to_string(),
        active: None,
    });
    assert_eq!(
        plan_change(MessageType::Update, inactive),
        Resolution::Resolved(RecordChange::Delete(RecordId::ActiveAlert(11)))
    );
    let active = DbRecord::AlertState(AlertStateRecord {
        id: 12,
        message: "raised".to_string(),
        active: Some(true),
    });
    assert_eq!(
        plan_change(MessageType::Insert, active),
        Resolution::Fetch(RecordId::ActiveAlert(12))
    );
}

#[test]
fn volume_node_row_is_fetched() {
    let row = DbRecord::VolumeNode(VolumeNodeRecord {
        id: 4,
        volume_id: 2,
        host_id: 1,
        path: "/dev/sda".to_string(),
        not_deleted: Some(true),
    });
    assert_eq!(
        plan_change(MessageType::Insert, row),
        Resolution::Fetch(RecordId::VolumeNode(4))
    );
}
