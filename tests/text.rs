use warp_drive::bulk::{api_endpoint, DbTable};
use warp_drive::command::{SendCmd, SendJob};
use warp_drive::display::format_cancelled;
use warp_drive::mailbox::socket_name;
use warp_drive::model::{is_live, DbRecord, OstPoolOstsRecord, Record, RecordId, Volume};

#[test]
fn socket_name_of_mailbox() {
    assert_eq!(socket_name("foo"), "/run/iml//postman-foo.sock");
    assert_eq!(socket_name(""), "/run/iml//postman-.sock");
}

#[test]
fn cancelled_message() {
    assert_eq!(format_cancelled("job cancelled"), "🚫 job cancelled");
    assert_eq!(format_cancelled(""), "🚫 ");
}

#[test]
fn load_queries() {
    assert_eq!(
        DbTable::OstPool.load_query(),
        "select * from chroma_core_ostpool where not_deleted = 't'"
    );
    assert_eq!(
        DbTable::OstPoolOsts.load_query(),
        "select * from chroma_core_ostpool_osts"
    );
    assert!(DbTable::VolumeNode.has_soft_delete());
    assert!(!DbTable::OstPoolOsts.has_soft_delete());
    assert_eq!(
        DbTable::ManagedTargetMount.table_name(),
        "chroma_core_managedtargetmount"
    );
}

#[test]
fn endpoints_of_api_types_only() {
    assert_eq!(api_endpoint(RecordId::Host(1)), Some("host"));
    assert_eq!(api_endpoint(RecordId::ActiveAlert(1)), Some("alert"));
    assert_eq!(api_endpoint(RecordId::Target(1)), Some("target"));
    assert_eq!(api_endpoint(RecordId::OstPool(1)), None);
    assert!(RecordId::Volume(2).is_api_authoritative());
    assert!(!RecordId::StratagemConfig(2).is_api_authoritative());
}

#[test]
fn ids_and_flags() {
    assert!(is_live(Some(true)));
    assert!(!is_live(Some(false)));
    assert!(!is_live(None));
    let row = DbRecord::OstPoolOsts(OstPoolOstsRecord {
        id: 3,
        ostpool_id: 1,
        managedost_id: 2,
    });
    assert_eq!(row.id(), RecordId::OstPoolOsts(3));
    assert!(!row.soft_deleted());
    let v = Record::Volume(Volume {
        id: 6,
        label: "v".to_string(),
        size: None,
    });
    assert_eq!(v.id(), RecordId::Volume(6));
}

#[test]
fn command_request_holds_jobs() {
    let cmd = SendCmd {
        jobs: vec![SendJob {
            class_name: "StartTargetJob".to_string(),
            args: 3u32,
        }],
        message: "Starting target".to_string(),
    };
    assert_eq!(cmd.jobs.len(), 1);
    assert_eq!(cmd.jobs[0].class_name, "StartTargetJob");
    assert_eq!(cmd.jobs[0].args, 3);
}
