use vstd::prelude::*;

use std::collections::HashMap;

use crate::model::{
    record_id, Alert, Filesystem, Host, LnetConfigurationRecord, ManagedTargetMountRecord,
    OstPoolOstsRecord, OstPoolRecord, Record, RecordChange, RecordId, StratagemConfiguration,
    Target, Volume, VolumeNodeRecord,
};

verus! {

broadcast use vstd::std_specs::hash::group_hash_axioms;

/// An entity that is kept in the snapshot under its own integer id.
pub trait Keyed {
    spec fn key(&self) -> u32;

    fn get_key(&self) -> (r: u32)
        ensures
            r == self.key(),
    ;
}

/// The id-keyed mapping that a list of entities loads into: every id of
/// the list is a key, and it maps to the last entity of the list with that
/// id.
pub open spec fn keyed<T: Keyed>(s: Seq<T>) -> Map<u32, T>
    decreases s.len(),
{
    if s.len() == 0 {
        Map::empty()
    } else {
        let rest = keyed(s.subrange(1, s.len() as int));
        if rest.contains_key(s[0].key()) {
            rest
        } else {
            rest.insert(s[0].key(), s[0])
        }
    }
}

/// Every entity of a loaded mapping sits under its own id.
pub proof fn lemma_keyed_under_own_key<T: Keyed>(s: Seq<T>)
    ensures
        forall|k: u32| #[trigger] keyed(s).contains_key(k) ==> keyed(s)[k].key() == k,
    decreases s.len(),
{
    if s.len() > 0 {
        let rest = s.subrange(1, s.len() as int);
        lemma_keyed_under_own_key(rest);
        assert forall|k: u32| #[trigger] keyed(s).contains_key(k) implies keyed(s)[k].key()
            == k by {
            if !keyed(rest).contains_key(s[0].key()) && k == s[0].key() {
                assert(keyed(s)[k] == s[0]);
            } else {
                assert(keyed(rest).contains_key(k));
            }
        }
    }
}

/// Builds the id-keyed mapping of a list of entities. Where two entities
/// share an id, the later one is kept.
pub fn index_by_id<T: Keyed>(items: Vec<T>) -> (r: HashMap<u32, T>)
    ensures
        r@ == keyed(items@),
{
    let ghost all = items@;
    let mut items = items;
    let mut m: HashMap<u32, T> = HashMap::new();
    while items.len() > 0
        invariant
            items@.len() <= all.len(),
            items@ == all.subrange(0, items@.len() as int),
            m@ == keyed(all.subrange(items@.len() as int, all.len() as int)),
        decreases items.len(),
    {
        let ghost n = items@.len();
        match items.pop() {
            Some(x) => {
                let key = x.get_key();
                proof {
                    assert(all.subrange(n - 1, all.len() as int).subrange(
                        1,
                        all.len() - (n - 1),
                    ) =~= all.subrange(n as int, all.len() as int));
                }
                if !m.contains_key(&key) {
                    m.insert(key, x);
                }
            },
            None => {},
        }
    }
    proof {
        assert(all.subrange(0, all.len() as int) =~= all);
    }
    m
}

impl Keyed for Host {
    open spec fn key(&self) -> u32 {
        self.id
    }

    fn get_key(&self) -> (r: u32) {
        self.id
    }
}

impl Keyed for Filesystem {
    open spec fn key(&self) -> u32 {
        self.id
    }

    fn get_key(&self) -> (r: u32) {
        self.id
    }
}

impl Keyed for Target {
    open spec fn key(&self) -> u32 {
        self.id
    }

    fn get_key(&self) -> (r: u32) {
        self.id
    }
}

impl Keyed for Volume {
    open spec fn key(&self) -> u32 {
        self.id
    }

    fn get_key(&self) -> (r: u32) {
        self.id
    }
}

impl Keyed for Alert {
    open spec fn key(&self) -> u32 {
        self.id
    }

    fn get_key(&self) -> (r: u32) {
        self.id
    }
}

impl Keyed for VolumeNodeRecord {
    open spec fn key(&self) -> u32 {
        self.id
    }

    fn get_key(&self) -> (r: u32) {
        self.id
    }
}

impl Keyed for OstPoolRecord {
    open spec fn key(&self) -> u32 {
        self.id
    }

    fn get_key(&self) -> (r: u32) {
        self.id
    }
}

impl Keyed for OstPoolOstsRecord {
    open spec fn key(&self) -> u32 {
        self.id
    }

    fn get_key(&self) -> (r: u32) {
        self.id
    }
}

impl Keyed for LnetConfigurationRecord {
    open spec fn key(&self) -> u32 {
        self.id
    }

    fn get_key(&self) -> (r: u32) {
        self.id
    }
}

impl Keyed for ManagedTargetMountRecord {
    open spec fn key(&self) -> u32 {
        self.id
    }

    fn get_key(&self) -> (r: u32) {
        self.id
    }
}

impl Keyed for StratagemConfiguration {
    open spec fn key(&self) -> u32 {
        self.id
    }

    fn get_key(&self) -> (r: u32) {
        self.id
    }
}

/// The snapshot of cluster inventory: one id-keyed mapping per entity type.
pub struct Cache {
    pub active_alert: HashMap<u32, Alert>,
    pub filesystem: HashMap<u32, Filesystem>,
    pub host: HashMap<u32, Host>,
    pub lnet_configuration: HashMap<u32, LnetConfigurationRecord>,
    pub managed_target_mount: HashMap<u32, ManagedTargetMountRecord>,
    pub ost_pool: HashMap<u32, OstPoolRecord>,
    pub ost_pool_osts: HashMap<u32, OstPoolOstsRecord>,
    pub stratagem_config: HashMap<u32, StratagemConfiguration>,
    pub target: HashMap<u32, Target>,
    pub volume: HashMap<u32, Volume>,
    pub volume_node: HashMap<u32, VolumeNodeRecord>,
}

impl Cache {
    /// Whether the snapshot holds an entry at `k`.
    pub open spec fn holds(&self, k: RecordId) -> bool {
        match k {
            RecordId::Host(i) => self.host@.contains_key(i),
            RecordId::Filesystem(i) => self.filesystem@.contains_key(i),
            RecordId::Target(i) => self.target@.contains_key(i),
            RecordId::Volume(i) => self.volume@.contains_key(i),
            RecordId::VolumeNode(i) => self.volume_node@.contains_key(i),
            RecordId::ActiveAlert(i) => self.active_alert@.contains_key(i),
            RecordId::OstPool(i) => self.ost_pool@.contains_key(i),
            RecordId::OstPoolOsts(i) => self.ost_pool_osts@.contains_key(i),
            RecordId::LnetConfiguration(i) => self.lnet_configuration@.contains_key(i),
            RecordId::ManagedTargetMount(i) => self.managed_target_mount@.contains_key(i),
            RecordId::StratagemConfig(i) => self.stratagem_config@.contains_key(i),
        }
    }

    /// The record kept at `k`, where there is one.
    pub open spec fn entry(&self, k: RecordId) -> Record {
        match k {
            RecordId::Host(i) => Record::Host(self.host@[i]),
            RecordId::Filesystem(i) => Record::Filesystem(self.filesystem@[i]),
            RecordId::Target(i) => Record::Target(self.target@[i]),
            RecordId::Volume(i) => Record::Volume(self.volume@[i]),
            RecordId::VolumeNode(i) => Record::VolumeNode(self.volume_node@[i]),
            RecordId::ActiveAlert(i) => Record::ActiveAlert(self.active_alert@[i]),
            RecordId::OstPool(i) => Record::OstPool(self.ost_pool@[i]),
            RecordId::OstPoolOsts(i) => Record::OstPoolOsts(self.ost_pool_osts@[i]),
            RecordId::LnetConfiguration(i) => Record::LnetConfiguration(
                self.lnet_configuration@[i],
            ),
            RecordId::ManagedTargetMount(i) => Record::ManagedTargetMount(
                self.managed_target_mount@[i],
            ),
            RecordId::StratagemConfig(i) => Record::StratagemConfig(self.stratagem_config@[i]),
        }
    }

    /// Every record sits under its own type and id.
    pub open spec fn wf(&self) -> bool {
        forall|k: RecordId| #[trigger] self.holds(k) ==> record_id(self.entry(k)) == k
    }
}

impl View for Cache {
    type V = Map<RecordId, Record>;

    /// The whole snapshot as one mapping from address to record.
    open spec fn view(&self) -> Map<RecordId, Record> {
        Map::new(|k: RecordId| self.holds(k), |k: RecordId| self.entry(k))
    }
}

/// The snapshot after one change: an update puts the record under its own
/// address, replacing what was there; a delete removes the address, if present.
pub open spec fn applied(m: Map<RecordId, Record>, change: RecordChange) -> Map<RecordId, Record> {
    match change {
        RecordChange::Update(r) => m.insert(record_id(r), r),
        RecordChange::Delete(k) => m.remove(k),
    }
}

impl Cache {
    /// An empty snapshot.
    pub fn new() -> (r: Cache)
        ensures
            r@ == Map::<RecordId, Record>::empty(),
            r.wf(),
    {
        let r = Cache {
            active_alert: HashMap::new(),
            filesystem: HashMap::new(),
            host: HashMap::new(),
            lnet_configuration: HashMap::new(),
            managed_target_mount: HashMap::new(),
            ost_pool: HashMap::new(),
            ost_pool_osts: HashMap::new(),
            stratagem_config: HashMap::new(),
            target: HashMap::new(),
            volume: HashMap::new(),
            volume_node: HashMap::new(),
        };
        assert(r@ =~= Map::<RecordId, Record>::empty());
        r
    }

    /// Applies one change to the snapshot.
    pub fn apply_change(&mut self, change: RecordChange)
        ensures
            final(self)@ == applied(old(self)@, change),
            old(self).wf() ==> final(self).wf(),
    {
        match change {
            RecordChange::Update(rec) => match rec {
                Record::Host(x) => {
                    self.host.insert(x.id, x);
                },
                Record::Filesystem(x) => {
                    self.filesystem.insert(x.id, x);
                },
                Record::Target(x) => {
                    self.target.insert(x.id, x);
                },
                Record::Volume(x) => {
                    self.volume.insert(x.id, x);
                },
                Record::VolumeNode(x) => {
                    self.volume_node.insert(x.id, x);
                },
                Record::ActiveAlert(x) => {
                    self.active_alert.insert(x.id, x);
                },
                Record::OstPool(x) => {
                    self.ost_pool.insert(x.id, x);
                },
                Record::OstPoolOsts(x) => {
                    self.ost_pool_osts.insert(x.id, x);
                },
                Record::LnetConfiguration(x) => {
                    self.lnet_configuration.insert(x.id, x);
                },
                Record::ManagedTargetMount(x) => {
                    self.managed_target_mount.insert(x.id, x);
                },
                Record::StratagemConfig(x) => {
                    self.stratagem_config.insert(x.id, x);
                },
            },
            RecordChange::Delete(k) => match k {
                RecordId::Host(i) => {
                    self.host.remove(&i);
                },
                RecordId::Filesystem(i) => {
                    self.filesystem.remove(&i);
                },
                RecordId::Target(i) => {
                    self.target.remove(&i);
                },
                RecordId::Volume(i) => {
                    self.volume.remove(&i);
                },
                RecordId::VolumeNode(i) => {
                    self.volume_node.remove(&i);
                },
                RecordId::ActiveAlert(i) => {
                    self.active_alert.remove(&i);
                },
                RecordId::OstPool(i) => {
                    self.ost_pool.remove(&i);
                },
                RecordId::OstPoolOsts(i) => {
                    self.ost_pool_osts.remove(&i);
                },
                RecordId::LnetConfiguration(i) => {
                    self.lnet_configuration.remove(&i);
                },
                RecordId::ManagedTargetMount(i) => {
                    self.managed_target_mount.remove(&i);
                },
                RecordId::StratagemConfig(i) => {
                    self.stratagem_config.remove(&i);
                },
            },
        }
        assert(self@ =~= applied(old(self)@, change));
        proof {
            if old(self).wf() {
                assert forall|k: RecordId| #[trigger] self.holds(k) implies record_id(
                    self.entry(k),
                ) == k by {
                    assert(self@.contains_key(k));
                    if let RecordChange::Update(r) = change {
                        if k != record_id(r) {
                            assert(old(self)@.contains_key(k));
                            assert(old(self).holds(k));
                        }
                    } else {
                        assert(old(self)@.contains_key(k));
                        assert(old(self).holds(k));
                    }
                }
            }
        }
    }
}

/// The error of a query, if it failed.
pub open spec fn failure<T, E>(r: Result<T, E>) -> Option<E> {
    match r {
        Ok(_) => None,
        Err(e) => Some(e),
    }
}

/// The first failure of a batch of queries at or after position `i`, in the
/// batch's order.
pub open spec fn first_failure_from<E>(s: Seq<Option<E>>, i: int) -> Option<E>
    decreases s.len() - i,
{
    if i < 0 || i >= s.len() {
        None
    } else if s[i] is Some {
        s[i]
    } else {
        first_failure_from(s, i + 1)
    }
}

/// The first failure of a batch of queries, in the batch's order.
pub open spec fn first_failure<E>(s: Seq<Option<E>>) -> Option<E> {
    first_failure_from(s, 0)
}

impl Cache {
    /// Installs the result of the API bulk load: the filesystem, target,
    /// alert, host and volume mappings are replaced wholesale by the loaded
    /// lists, keyed by id. If any of the five queries failed, nothing is
    /// replaced and the first failure, in argument order, is returned.
    ///
    /// A bulk load is a coarse resynchronization: a change applied while its
    /// queries ran is overwritten by the loaded list when that list is older.
    /// The next change event for the entity brings it up to date again.
    pub fn install_api_snapshot<E>(
        &mut self,
        filesystems: Result<Vec<Filesystem>, E>,
        targets: Result<Vec<Target>, E>,
        alerts: Result<Vec<Alert>, E>,
        hosts: Result<Vec<Host>, E>,
        volumes: Result<Vec<Volume>, E>,
    ) -> (r: Result<(), E>)
        ensures
            r is Ok <==> (filesystems is Ok && targets is Ok && alerts is Ok && hosts is Ok
                && volumes is Ok),
            r is Err ==> *final(self) == *old(self),
            r == match first_failure(
                seq![
                    failure(filesystems),
                    failure(targets),
                    failure(alerts),
                    failure(hosts),
                    failure(volumes),
                ],
            ) {
                Some(e) => Err(e),
                None => Ok(()),
            },
            r is Ok ==> {
                &&& final(self).filesystem@ == keyed(filesystems->Ok_0@)
                &&& final(self).target@ == keyed(targets->Ok_0@)
                &&& final(self).active_alert@ == keyed(alerts->Ok_0@)
                &&& final(self).host@ == keyed(hosts->Ok_0@)
                &&& final(self).volume@ == keyed(volumes->Ok_0@)
                &&& final(self).lnet_configuration == old(self).lnet_configuration
                &&& final(self).managed_target_mount == old(self).managed_target_mount
                &&& final(self).ost_pool == old(self).ost_pool
                &&& final(self).ost_pool_osts == old(self).ost_pool_osts
                &&& final(self).stratagem_config == old(self).stratagem_config
                &&& final(self).volume_node == old(self).volume_node
            },
            old(self).wf() ==> final(self).wf(),
    {
        proof {
            reveal_with_fuel(first_failure_from, 7);
        }
        let filesystems = match filesystems {
            Ok(v) => v,
            Err(e) => return Err(e),
        };
        let targets = match targets {
            Ok(v) => v,
            Err(e) => return Err(e),
        };
        let alerts = match alerts {
            Ok(v) => v,
            Err(e) => return Err(e),
        };
        let hosts = match hosts {
            Ok(v) => v,
            Err(e) => return Err(e),
        };
        let volumes = match volumes {
            Ok(v) => v,
            Err(e) => return Err(e),
        };
        proof {
            lemma_keyed_under_own_key(filesystems@);
            lemma_keyed_under_own_key(targets@);
            lemma_keyed_under_own_key(alerts@);
            lemma_keyed_under_own_key(hosts@);
            lemma_keyed_under_own_key(volumes@);
        }
        self.filesystem = index_by_id(filesystems);
        self.target = index_by_id(targets);
        self.active_alert = index_by_id(alerts);
        self.host = index_by_id(hosts);
        self.volume = index_by_id(volumes);
        proof {
            if old(self).wf() {
                assert forall|k: RecordId| #[trigger] self.holds(k) implies record_id(
                    self.entry(k),
                ) == k by {
                    match k {
                        RecordId::Host(_) | RecordId::Filesystem(_) | RecordId::Target(_)
                        | RecordId::Volume(_) | RecordId::ActiveAlert(_) => {},
                        _ => {
                            assert(old(self).holds(k));
                        },
                    }
                }
            }
        }
        Ok(())
    }

    /// Installs the result of the database bulk load: the target-mount,
    /// stratagem configuration, LNet configuration, volume-node, OST pool
    /// and pool membership mappings are replaced wholesale by the loaded
    /// rows, keyed by id. If any of the six queries failed, nothing is
    /// replaced and the first failure, in argument order, is returned.
    ///
    /// As with the API bulk load, a change applied while the queries ran is
    /// overwritten by older loaded rows, until the next change event.
    pub fn install_db_snapshot<E>(
        &mut self,
        managed_target_mounts: Result<Vec<ManagedTargetMountRecord>, E>,
        stratagem_configs: Result<Vec<StratagemConfiguration>, E>,
        lnet_configurations: Result<Vec<LnetConfigurationRecord>, E>,
        volume_nodes: Result<Vec<VolumeNodeRecord>, E>,
        ost_pools: Result<Vec<OstPoolRecord>, E>,
        ost_pool_osts: Result<Vec<OstPoolOstsRecord>, E>,
    ) -> (r: Result<(), E>)
        ensures
            r is Ok <==> (managed_target_mounts is Ok && stratagem_configs is Ok
                && lnet_configurations is Ok && volume_nodes is Ok && ost_pools is Ok
                && ost_pool_osts is Ok),
            r is Err ==> *final(self) == *old(self),
            r == match first_failure(
                seq![
                    failure(managed_target_mounts),
                    failure(stratagem_configs),
                    failure(lnet_configurations),
                    failure(volume_nodes),
                    failure(ost_pools),
                    failure(ost_pool_osts),
                ],
            ) {
                Some(e) => Err(e),
                None => Ok(()),
            },
            r is Ok ==> {
                &&& final(self).managed_target_mount@ == keyed(managed_target_mounts->Ok_0@)
                &&& final(self).stratagem_config@ == keyed(stratagem_configs->Ok_0@)
                &&& final(self).lnet_configuration@ == keyed(lnet_configurations->Ok_0@)
                &&& final(self).volume_node@ == keyed(volume_nodes->Ok_0@)
                &&& final(self).ost_pool@ == keyed(ost_pools->Ok_0@)
                &&& final(self).ost_pool_osts@ == keyed(ost_pool_osts->Ok_0@)
                &&& final(self).active_alert == old(self).active_alert
                &&& final(self).filesystem == old(self).filesystem
                &&& final(self).host == old(self).host
                &&& final(self).target == old(self).target
                &&& final(self).volume == old(self).volume
            },
            old(self).wf() ==> final(self).wf(),
    {
        proof {
            reveal_with_fuel(first_failure_from, 7);
        }
        let managed_target_mounts = match managed_target_mounts {
            Ok(v) => v,
            Err(e) => return Err(e),
        };
        let stratagem_configs = match stratagem_configs {
            Ok(v) => v,
            Err(e) => return Err(e),
        };
        let lnet_configurations = match lnet_configurations {
            Ok(v) => v,
            Err(e) => return Err(e),
        };
        let volume_nodes = match volume_nodes {
            Ok(v) => v,
            Err(e) => return Err(e),
        };
        let ost_pools = match ost_pools {
            Ok(v) => v,
            Err(e) => return Err(e),
        };
        let ost_pool_osts = match ost_pool_osts {
            Ok(v) => v,
            Err(e) => return Err(e),
        };
        proof {
            lemma_keyed_under_own_key(managed_target_mounts@);
            lemma_keyed_under_own_key(stratagem_configs@);
            lemma_keyed_under_own_key(lnet_configurations@);
            lemma_keyed_under_own_key(volume_nodes@);
            lemma_keyed_under_own_key(ost_pools@);
            lemma_keyed_under_own_key(ost_pool_osts@);
        }
        self.managed_target_mount = index_by_id(managed_target_mounts);
        self.stratagem_config = index_by_id(stratagem_configs);
        self.lnet_configuration = index_by_id(lnet_configurations);
        self.volume_node = index_by_id(volume_nodes);
        self.ost_pool = index_by_id(ost_pools);
        self.ost_pool_osts = index_by_id(ost_pool_osts);
        proof {
            if old(self).wf() {
                assert forall|k: RecordId| #[trigger] self.holds(k) implies record_id(
                    self.entry(k),
                ) == k by {
                    match k {
                        RecordId::Host(_) | RecordId::Filesystem(_) | RecordId::Target(_)
                        | RecordId::Volume(_) | RecordId::ActiveAlert(_) => {
                            assert(old(self).holds(k));
                        },
                        _ => {},
                    }
                }
            }
        }
        Ok(())
    }
}

impl Cache {
    /// Whether the snapshot holds an entry at `k`.
    pub fn contains(&self, k: RecordId) -> (r: bool)
        ensures
            r == self@.contains_key(k),
    {
        match k {
            RecordId::Host(i) => self.host.contains_key(&i),
            RecordId::Filesystem(i) => self.filesystem.contains_key(&i),
            RecordId::Target(i) => self.target.contains_key(&i),
            RecordId::Volume(i) => self.volume.contains_key(&i),
            RecordId::VolumeNode(i) => self.volume_node.contains_key(&i),
            RecordId::ActiveAlert(i) => self.active_alert.contains_key(&i),
            RecordId::OstPool(i) => self.ost_pool.contains_key(&i),
            RecordId::OstPoolOsts(i) => self.ost_pool_osts.contains_key(&i),
            RecordId::LnetConfiguration(i) => self.lnet_configuration.contains_key(&i),
            RecordId::ManagedTargetMount(i) => self.managed_target_mount.contains_key(&i),
            RecordId::StratagemConfig(i) => self.stratagem_config.contains_key(&i),
        }
    }
}

/// Deleting an address twice in a row leaves the snapshot as deleting it
/// once does.
pub proof fn lemma_delete_idempotent(m: Map<RecordId, Record>, k: RecordId)
    ensures
        applied(applied(m, RecordChange::Delete(k)), RecordChange::Delete(k)) == applied(
            m,
            RecordChange::Delete(k),
        ),
{
    assert(m.remove(k).remove(k) =~= m.remove(k));
}

/// An update for an address that is already present replaces the whole
/// entry with the new record, and touches no other address.
pub proof fn lemma_update_replaces(m: Map<RecordId, Record>, e: Record)
    requires
        m.contains_key(record_id(e)),
    ensures
        applied(m, RecordChange::Update(e))[record_id(e)] == e,
        applied(m, RecordChange::Update(e)).dom() == m.dom(),
        forall|k: RecordId|
            k != record_id(e) && #[trigger] m.contains_key(k) ==> applied(
                m,
                RecordChange::Update(e),
            )[k] == m[k],
{
    assert(m.insert(record_id(e), e).dom() =~= m.dom());
}

} // verus!
