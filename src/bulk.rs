use vstd::prelude::*;
use vstd::string::*;

use crate::model::{api_authoritative, RecordId};

verus! {

/// The database tables that the bulk load reads, one per
/// database-authoritative entity type.
#[derive(Clone, Copy, Debug, PartialEq, Eq, Structural)]
pub enum DbTable {
    ManagedTargetMount,
    StratagemConfiguration,
    LnetConfiguration,
    VolumeNode,
    OstPool,
    OstPoolOsts,
}

/// The name of a table in the database schema.
pub open spec fn table_text(t: DbTable) -> Seq<char> {
    match t {
        DbTable::ManagedTargetMount => "chroma_core_managedtargetmount"@,
        DbTable::StratagemConfiguration => "chroma_core_stratagemconfiguration"@,
        DbTable::LnetConfiguration => "chroma_core_lnetconfiguration"@,
        DbTable::VolumeNode => "chroma_core_volumenode"@,
        DbTable::OstPool => "chroma_core_ostpool"@,
        DbTable::OstPoolOsts => "chroma_core_ostpool_osts"@,
    }
}

/// Whether a table has the `not_deleted` soft-delete column. Only the pool
/// membership table lacks it.
pub open spec fn soft_deletable(t: DbTable) -> bool {
    t != DbTable::OstPoolOsts
}

/// The statement that loads a table: every row, less the soft-deleted ones
/// where the table can mark rows deleted.
pub open spec fn load_text(t: DbTable) -> Seq<char> {
    if soft_deletable(t) {
        "select * from "@ + table_text(t) + " where not_deleted = 't'"@
    } else {
        "select * from "@ + table_text(t)
    }
}

impl DbTable {
    /// The table's name in the database schema.
    pub fn table_name(&self) -> (r: &'static str)
        ensures
            r@ == table_text(*self),
    {
        match self {
            DbTable::ManagedTargetMount => "chroma_core_managedtargetmount",
            DbTable::StratagemConfiguration => "chroma_core_stratagemconfiguration",
            DbTable::LnetConfiguration => "chroma_core_lnetconfiguration",
            DbTable::VolumeNode => "chroma_core_volumenode",
            DbTable::OstPool => "chroma_core_ostpool",
            DbTable::OstPoolOsts => "chroma_core_ostpool_osts",
        }
    }

    /// Whether the table has the `not_deleted` soft-delete column.
    pub fn has_soft_delete(&self) -> (r: bool)
        ensures
            r == soft_deletable(*self),
    {
        match self {
            DbTable::OstPoolOsts => false,
            _ => true,
        }
    }

    /// The statement that the bulk load prepares for this table.
    pub fn load_query(&self) -> (r: String)
        ensures
            r@ == load_text(*self),
    {
        let mut q = String::from_str("select * from ");
        q.append(self.table_name());
        if self.has_soft_delete() {
            q.append(" where not_deleted = 't'");
        }
        q
    }
}

/// The API endpoint of each API-authoritative entity type.
pub open spec fn endpoint_text(k: RecordId) -> Seq<char> {
    match k {
        RecordId::Host(_) => "host"@,
        RecordId::Filesystem(_) => "filesystem"@,
        RecordId::Target(_) => "target"@,
        RecordId::Volume(_) => "volume"@,
        RecordId::VolumeNode(_) => "volume_node"@,
        RecordId::ActiveAlert(_) => "alert"@,
        _ => Seq::empty(),
    }
}

/// The API endpoint from which the entity at `k` is fetched, or `None` for
/// entity types whose database row is authoritative.
pub fn api_endpoint(k: RecordId) -> (r: Option<&'static str>)
    ensures
        r is Some <==> api_authoritative(k),
        r matches Some(e) ==> e@ == endpoint_text(k),
{
    match k {
        RecordId::Host(_) => Some("host"),
        RecordId::Filesystem(_) => Some("filesystem"),
        RecordId::Target(_) => Some("target"),
        RecordId::Volume(_) => Some("volume"),
        RecordId::VolumeNode(_) => Some("volume_node"),
        RecordId::ActiveAlert(_) => Some("alert"),
        _ => None,
    }
}

} // verus!
