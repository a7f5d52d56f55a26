use vstd::prelude::*;

verus! {

// Entities whose canonical form comes from the REST API.

/// A managed server, as the API presents it.
#[derive(Clone, Debug, PartialEq)]
pub struct Host {
    pub id: u32,
    pub label: String,
    pub fqdn: String,
}

/// A filesystem, as the API presents it.
#[derive(Clone, Debug, PartialEq)]
pub struct Filesystem {
    pub id: u32,
    pub label: String,
    pub name: String,
}

/// A storage target (MGT, MDT or OST), as the API presents it.
#[derive(Clone, Debug, PartialEq)]
pub struct Target {
    pub id: u32,
    pub label: String,
    pub kind: String,
    pub filesystem_id: Option<u32>,
}

/// A storage volume, as the API presents it.
#[derive(Clone, Debug, PartialEq)]
pub struct Volume {
    pub id: u32,
    pub label: String,
    pub size: Option<u64>,
}

/// An alert, as the API presents it.
#[derive(Clone, Debug, PartialEq)]
pub struct Alert {
    pub id: u32,
    pub message: String,
    pub active: Option<bool>,
}

// Rows of the database. The soft-delete column `not_deleted` is `Some(true)`
// for a live row; any other value marks the row as logically deleted.

/// A row of the managed-host table.
#[derive(Clone, Debug, PartialEq)]
pub struct ManagedHostRecord {
    pub id: u32,
    pub fqdn: String,
    pub not_deleted: Option<bool>,
}

/// A row of the managed-filesystem table.
#[derive(Clone, Debug, PartialEq)]
pub struct FsRecord {
    pub id: u32,
    pub name: String,
    pub not_deleted: Option<bool>,
}

/// A row of the managed-target table.
#[derive(Clone, Debug, PartialEq)]
pub struct ManagedTargetRecord {
    pub id: u32,
    pub name: String,
    pub not_deleted: Option<bool>,
}

/// A row of the volume table.
#[derive(Clone, Debug, PartialEq)]
pub struct VolumeRecord {
    pub id: u32,
    pub label: String,
    pub not_deleted: Option<bool>,
}

/// A row of the alert-state table. `active` is `Some(true)` while the alert
/// is raised.
#[derive(Clone, Debug, PartialEq)]
pub struct AlertStateRecord {
    pub id: u32,
    pub message: String,
    pub active: Option<bool>,
}

/// A row of the volume-node table: where a volume is reachable from a host.
#[derive(Clone, Debug, PartialEq)]
pub struct VolumeNodeRecord {
    pub id: u32,
    pub volume_id: u32,
    pub host_id: u32,
    pub path: String,
    pub not_deleted: Option<bool>,
}

/// A row of the OST pool table.
#[derive(Clone, Debug, PartialEq)]
pub struct OstPoolRecord {
    pub id: u32,
    pub name: String,
    pub filesystem_id: u32,
    pub not_deleted: Option<bool>,
}

/// A row of the pool membership table. It has no soft-delete column.
#[derive(Clone, Debug, PartialEq)]
pub struct OstPoolOstsRecord {
    pub id: u32,
    pub ostpool_id: u32,
    pub managedost_id: u32,
}

/// A row of the LNet configuration table.
#[derive(Clone, Debug, PartialEq)]
pub struct LnetConfigurationRecord {
    pub id: u32,
    pub host_id: u32,
    pub state: String,
    pub not_deleted: Option<bool>,
}

/// A row of the target-mount table.
#[derive(Clone, Debug, PartialEq)]
pub struct ManagedTargetMountRecord {
    pub id: u32,
    pub host_id: u32,
    pub target_id: u32,
    pub volume_node_id: Option<u32>,
    pub primary: bool,
    pub not_deleted: Option<bool>,
}

/// A row of the stratagem configuration table.
#[derive(Clone, Debug, PartialEq)]
pub struct StratagemConfiguration {
    pub id: u32,
    pub filesystem_id: u32,
    pub interval: u64,
    pub state: String,
    pub not_deleted: Option<bool>,
}

/// The full, current representation of one entity of the snapshot.
#[derive(Clone, Debug, PartialEq)]
pub enum Record {
    Host(Host),
    Filesystem(Filesystem),
    Target(Target),
    Volume(Volume),
    VolumeNode(VolumeNodeRecord),
    ActiveAlert(Alert),
    OstPool(OstPoolRecord),
    OstPoolOsts(OstPoolOstsRecord),
    LnetConfiguration(LnetConfigurationRecord),
    ManagedTargetMount(ManagedTargetMountRecord),
    StratagemConfig(StratagemConfiguration),
}

/// The address of one entity of the snapshot: its type and its id.
#[derive(Clone, Copy, Debug, PartialEq, Eq, Hash, Structural)]
pub enum RecordId {
    Host(u32),
    Filesystem(u32),
    Target(u32),
    Volume(u32),
    VolumeNode(u32),
    ActiveAlert(u32),
    OstPool(u32),
    OstPoolOsts(u32),
    LnetConfiguration(u32),
    ManagedTargetMount(u32),
    StratagemConfig(u32),
}

/// The one unit of change that is applied to the snapshot.
#[derive(Clone, Debug, PartialEq)]
pub enum RecordChange {
    Update(Record),
    Delete(RecordId),
}

/// What happened to a database row.
#[derive(Clone, Copy, Debug, PartialEq, Eq, Structural)]
pub enum MessageType {
    Insert,
    Update,
    Delete,
}

/// A decoded database row, one variant per source table.
#[derive(Clone, Debug, PartialEq)]
pub enum DbRecord {
    ManagedHost(ManagedHostRecord),
    ManagedFilesystem(FsRecord),
    ManagedTarget(ManagedTargetRecord),
    Volume(VolumeRecord),
    VolumeNode(VolumeNodeRecord),
    AlertState(AlertStateRecord),
    OstPool(OstPoolRecord),
    OstPoolOsts(OstPoolOstsRecord),
    LnetConfiguration(LnetConfigurationRecord),
    ManagedTargetMount(ManagedTargetMountRecord),
    StratagemConfiguration(StratagemConfiguration),
}

/// Whether a soft-delete column marks its row as live.
pub open spec fn live(not_deleted: Option<bool>) -> bool {
    not_deleted == Some(true)
}

/// The address under which a record is kept.
pub open spec fn record_id(r: Record) -> RecordId {
    match r {
        Record::Host(x) => RecordId::Host(x.id),
        Record::Filesystem(x) => RecordId::Filesystem(x.id),
        Record::Target(x) => RecordId::Target(x.id),
        Record::Volume(x) => RecordId::Volume(x.id),
        Record::VolumeNode(x) => RecordId::VolumeNode(x.id),
        Record::ActiveAlert(x) => RecordId::ActiveAlert(x.id),
        Record::OstPool(x) => RecordId::OstPool(x.id),
        Record::OstPoolOsts(x) => RecordId::OstPoolOsts(x.id),
        Record::LnetConfiguration(x) => RecordId::LnetConfiguration(x.id),
        Record::ManagedTargetMount(x) => RecordId::ManagedTargetMount(x.id),
        Record::StratagemConfig(x) => RecordId::StratagemConfig(x.id),
    }
}

/// The address of the entity that a database row describes.
pub open spec fn row_id(r: DbRecord) -> RecordId {
    match r {
        DbRecord::ManagedHost(x) => RecordId::Host(x.id),
        DbRecord::ManagedFilesystem(x) => RecordId::Filesystem(x.id),
        DbRecord::ManagedTarget(x) => RecordId::Target(x.id),
        DbRecord::Volume(x) => RecordId::Volume(x.id),
        DbRecord::VolumeNode(x) => RecordId::VolumeNode(x.id),
        DbRecord::AlertState(x) => RecordId::ActiveAlert(x.id),
        DbRecord::OstPool(x) => RecordId::OstPool(x.id),
        DbRecord::OstPoolOsts(x) => RecordId::OstPoolOsts(x.id),
        DbRecord::LnetConfiguration(x) => RecordId::LnetConfiguration(x.id),
        DbRecord::ManagedTargetMount(x) => RecordId::ManagedTargetMount(x.id),
        DbRecord::StratagemConfiguration(x) => RecordId::StratagemConfig(x.id),
    }
}

/// Whether a row reports its entity as logically deleted: its soft-delete
/// column is not set to live or, for an alert, the alert is no longer raised.
/// Pool membership rows have no such column and are never soft-deleted.
pub open spec fn row_soft_deleted(r: DbRecord) -> bool {
    match r {
        DbRecord::ManagedHost(x) => !live(x.not_deleted),
        DbRecord::ManagedFilesystem(x) => !live(x.not_deleted),
        DbRecord::ManagedTarget(x) => !live(x.not_deleted),
        DbRecord::Volume(x) => !live(x.not_deleted),
        DbRecord::VolumeNode(x) => !live(x.not_deleted),
        DbRecord::AlertState(x) => x.active != Some(true),
        DbRecord::OstPool(x) => !live(x.not_deleted),
        DbRecord::OstPoolOsts(_) => false,
        DbRecord::LnetConfiguration(x) => !live(x.not_deleted),
        DbRecord::ManagedTargetMount(x) => !live(x.not_deleted),
        DbRecord::StratagemConfiguration(x) => !live(x.not_deleted),
    }
}

/// Entity types whose canonical form must be fetched from the API rather
/// than read from the database row.
pub open spec fn api_authoritative(id: RecordId) -> bool {
    match id {
        RecordId::Host(_) | RecordId::Filesystem(_) | RecordId::Target(_) | RecordId::Volume(_)
        | RecordId::VolumeNode(_) | RecordId::ActiveAlert(_) => true,
        _ => false,
    }
}

/// The record that a database-authoritative row stands for: the row itself.
/// Rows of API-authoritative tables have none.
pub open spec fn direct_record(r: DbRecord) -> Option<Record> {
    match r {
        DbRecord::OstPool(x) => Some(Record::OstPool(x)),
        DbRecord::OstPoolOsts(x) => Some(Record::OstPoolOsts(x)),
        DbRecord::LnetConfiguration(x) => Some(Record::LnetConfiguration(x)),
        DbRecord::ManagedTargetMount(x) => Some(Record::ManagedTargetMount(x)),
        DbRecord::StratagemConfiguration(x) => Some(Record::StratagemConfig(x)),
        _ => None,
    }
}

impl RecordId {
    /// The entity's id, whatever its type.
    pub open spec fn spec_id(self) -> u32 {
        match self {
            RecordId::Host(i) => i,
            RecordId::Filesystem(i) => i,
            RecordId::Target(i) => i,
            RecordId::Volume(i) => i,
            RecordId::VolumeNode(i) => i,
            RecordId::ActiveAlert(i) => i,
            RecordId::OstPool(i) => i,
            RecordId::OstPoolOsts(i) => i,
            RecordId::LnetConfiguration(i) => i,
            RecordId::ManagedTargetMount(i) => i,
            RecordId::StratagemConfig(i) => i,
        }
    }

    /// The entity's id, whatever its type.
    pub fn value(&self) -> (r: u32)
        ensures
            r == self.spec_id(),
    {
        match self {
            RecordId::Host(i) => *i,
            RecordId::Filesystem(i) => *i,
            RecordId::Target(i) => *i,
            RecordId::Volume(i) => *i,
            RecordId::VolumeNode(i) => *i,
            RecordId::ActiveAlert(i) => *i,
            RecordId::OstPool(i) => *i,
            RecordId::OstPoolOsts(i) => *i,
            RecordId::LnetConfiguration(i) => *i,
            RecordId::ManagedTargetMount(i) => *i,
            RecordId::StratagemConfig(i) => *i,
        }
    }

    /// Whether entities of this type are fetched from the API.
    pub fn is_api_authoritative(&self) -> (r: bool)
        ensures
            r == api_authoritative(*self),
    {
        match self {
            RecordId::Host(_) | RecordId::Filesystem(_) | RecordId::Target(_)
            | RecordId::Volume(_) | RecordId::VolumeNode(_) | RecordId::ActiveAlert(_) => true,
            _ => false,
        }
    }
}

impl Record {
    /// The address under which this record is kept.
    pub fn id(&self) -> (r: RecordId)
        ensures
            r == record_id(*self),
    {
        match self {
            Record::Host(x) => RecordId::Host(x.id),
            Record::Filesystem(x) => RecordId::Filesystem(x.id),
            Record::Target(x) => RecordId::Target(x.id),
            Record::Volume(x) => RecordId::Volume(x.id),
            Record::VolumeNode(x) => RecordId::VolumeNode(x.id),
            Record::ActiveAlert(x) => RecordId::ActiveAlert(x.id),
            Record::OstPool(x) => RecordId::OstPool(x.id),
            Record::OstPoolOsts(x) => RecordId::OstPoolOsts(x.id),
            Record::LnetConfiguration(x) => RecordId::LnetConfiguration(x.id),
            Record::ManagedTargetMount(x) => RecordId::ManagedTargetMount(x.id),
            Record::StratagemConfig(x) => RecordId::StratagemConfig(x.id),
        }
    }
}

impl DbRecord {
    /// The address of the entity that this row describes.
    pub fn id(&self) -> (r: RecordId)
        ensures
            r == row_id(*self),
    {
        match self {
            DbRecord::ManagedHost(x) => RecordId::Host(x.id),
            DbRecord::ManagedFilesystem(x) => RecordId::Filesystem(x.id),
            DbRecord::ManagedTarget(x) => RecordId::Target(x.id),
            DbRecord::Volume(x) => RecordId::Volume(x.id),
            DbRecord::VolumeNode(x) => RecordId::VolumeNode(x.id),
            DbRecord::AlertState(x) => RecordId::ActiveAlert(x.id),
            DbRecord::OstPool(x) => RecordId::OstPool(x.id),
            DbRecord::OstPoolOsts(x) => RecordId::OstPoolOsts(x.id),
            DbRecord::LnetConfiguration(x) => RecordId::LnetConfiguration(x.id),
            DbRecord::ManagedTargetMount(x) => RecordId::ManagedTargetMount(x.id),
            DbRecord::StratagemConfiguration(x) => RecordId::StratagemConfig(x.id),
        }
    }

    /// Whether this row reports its entity as logically deleted.
    pub fn soft_deleted(&self) -> (r: bool)
        ensures
            r == row_soft_deleted(*self),
    {
        match self {
            DbRecord::ManagedHost(x) => !is_live(x.not_deleted),
            DbRecord::ManagedFilesystem(x) => !is_live(x.not_deleted),
            DbRecord::ManagedTarget(x) => !is_live(x.not_deleted),
            DbRecord::Volume(x) => !is_live(x.not_deleted),
            DbRecord::VolumeNode(x) => !is_live(x.not_deleted),
            DbRecord::AlertState(x) => !is_live(x.active),
            DbRecord::OstPool(x) => !is_live(x.not_deleted),
            DbRecord::OstPoolOsts(_) => false,
            DbRecord::LnetConfiguration(x) => !is_live(x.not_deleted),
            DbRecord::ManagedTargetMount(x) => !is_live(x.not_deleted),
            DbRecord::StratagemConfiguration(x) => !is_live(x.not_deleted),
        }
    }
}

/// Whether a soft-delete column (or an alert's `active` flag) is set.
pub fn is_live(flag: Option<bool>) -> (r: bool)
    ensures
        r == live(flag),
{
    match flag {
        Some(b) => b,
        None => false,
    }
}

} // verus!
