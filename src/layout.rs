//! Host paths and lock names derived from the pool id and a VM id.
use vstd::prelude::*;
use crate::ids::{hyphenated_text, id_text, lemma_id_text_injective};

verus! {

/// Seconds a VM lock's lease lasts unless the caller asks otherwise.
pub const DEFAULT_LEASE_SECONDS: i64 = 120;

/// `part` appended to the directory `base`, with one `/` between them
/// unless `base` is empty or already ends in `/`.
pub open spec fn joined(base: Seq<char>, part: Seq<char>) -> Seq<char> {
    if base.len() == 0 || base.last() == '/' {
        base + part
    } else {
        base + seq!['/'] + part
    }
}

/// Appends the relative path `part` to the directory `base`.
pub fn join_path(base: &String, part: &String) -> (r: String)
    ensures
        r@ == joined(base@, part@),
{
    let n = base.as_str().unicode_len();
    let mut r = base.clone();
    if n > 0 && base.as_str().get_char(n - 1) != '/' {
        r.append("/");
        proof {
            reveal_strlit("/");
        }
    }
    r.append(part.as_str());
    r
}

/// The key of the exclusion lock of a VM.
pub open spec fn lock_name_of(vmid: u128) -> Seq<char> {
    "/lock/vm/"@ + hyphenated_text(vmid)
}

/// The key of the exclusion lock of a VM: `/lock/vm/<vmid>`.
pub fn lock_name(vmid: u128) -> (r: String)
    ensures
        r@ == lock_name_of(vmid),
{
    let mut r = String::from_str("/lock/vm/");
    r.append(id_text(vmid).as_str());
    r
}

/// Operations on distinct VMs take distinct locks, so neither waits on the
/// other.
pub proof fn lemma_distinct_vms_distinct_locks(a: u128, b: u128)
    requires
        a != b,
    ensures
        lock_name_of(a) != lock_name_of(b),
{
    lemma_id_text_injective(a, b);
    let p = "/lock/vm/"@;
    if lock_name_of(a) == lock_name_of(b) {
        assert(hyphenated_text(a) =~= lock_name_of(a).subrange(p.len() as int, lock_name_of(a).len() as int));
        assert(hyphenated_text(b) =~= lock_name_of(b).subrange(p.len() as int, lock_name_of(b).len() as int));
    }
}

/// The directories of a pool; each VM's files live under
/// `<dir>/<pool_id>/`.
#[derive(Debug)]
pub struct PoolLayout {
    pub pool_id: u128,
    pub socket_dir: String,
    pub logs_dir: String,
    pub metrics_dir: String,
    pub memory_snapshot_dir: String,
}

impl PoolLayout {
    pub open spec fn socket_path_of(self, vmid: u128) -> Seq<char> {
        joined(joined(self.socket_dir@, hyphenated_text(self.pool_id)), hyphenated_text(vmid) + ".socket"@)
    }

    pub open spec fn log_fifo_of(self, vmid: u128) -> Seq<char> {
        joined(joined(self.logs_dir@, hyphenated_text(self.pool_id)), hyphenated_text(vmid) + ".log"@)
    }

    pub open spec fn metrics_fifo_of(self, vmid: u128) -> Seq<char> {
        joined(joined(self.metrics_dir@, hyphenated_text(self.pool_id)), hyphenated_text(vmid) + ".metrics"@)
    }

    pub open spec fn snapshot_dir_of(self, vmid: u128) -> Seq<char> {
        joined(joined(self.memory_snapshot_dir@, hyphenated_text(self.pool_id)), hyphenated_text(vmid))
    }

    pub open spec fn mem_snapshot_path_of(self, vmid: u128, sid: u128) -> Seq<char> {
        joined(self.snapshot_dir_of(vmid), hyphenated_text(sid) + ".mem"@)
    }

    pub open spec fn vm_snapshot_path_of(self, vmid: u128, sid: u128) -> Seq<char> {
        joined(self.snapshot_dir_of(vmid), hyphenated_text(sid) + ".vm"@)
    }

    /// `<dir>/<pool_id>/<id><suffix>`.
    fn file_under(&self, dir: &String, id: u128, suffix: &str) -> (r: String)
        ensures
            r@ == joined(joined(dir@, hyphenated_text(self.pool_id)), hyphenated_text(id) + suffix@),
    {
        let pool_dir = join_path(dir, &id_text(self.pool_id));
        let mut name = id_text(id);
        name.append(suffix);
        join_path(&pool_dir, &name)
    }

    /// The control socket of a VM: `<socket_dir>/<pool_id>/<vmid>.socket`.
    pub fn socket_path(&self, vmid: u128) -> (r: String)
        ensures
            r@ == self.socket_path_of(vmid),
    {
        self.file_under(&self.socket_dir, vmid, ".socket")
    }

    /// The log FIFO of a VM: `<logs_dir>/<pool_id>/<vmid>.log`.
    pub fn log_fifo(&self, vmid: u128) -> (r: String)
        ensures
            r@ == self.log_fifo_of(vmid),
    {
        self.file_under(&self.logs_dir, vmid, ".log")
    }

    /// The metrics FIFO of a VM: `<metrics_dir>/<pool_id>/<vmid>.metrics`.
    pub fn metrics_fifo(&self, vmid: u128) -> (r: String)
        ensures
            r@ == self.metrics_fifo_of(vmid),
    {
        self.file_under(&self.metrics_dir, vmid, ".metrics")
    }

    /// The directory of a VM's snapshots:
    /// `<memory_snapshot_dir>/<pool_id>/<vmid>`.
    pub fn snapshot_dir(&self, vmid: u128) -> (r: String)
        ensures
            r@ == self.snapshot_dir_of(vmid),
    {
        let pool_dir = join_path(&self.memory_snapshot_dir, &id_text(self.pool_id));
        join_path(&pool_dir, &id_text(vmid))
    }

    /// The memory file of a snapshot: `<snapshot dir>/<sid>.mem`.
    pub fn mem_snapshot_path(&self, vmid: u128, sid: u128) -> (r: String)
        ensures
            r@ == self.mem_snapshot_path_of(vmid, sid),
    {
        let mut name = id_text(sid);
        name.append(".mem");
        join_path(&self.snapshot_dir(vmid), &name)
    }

    /// The VM-state file of a snapshot: `<snapshot dir>/<sid>.vm`.
    pub fn vm_snapshot_path(&self, vmid: u128, sid: u128) -> (r: String)
        ensures
            r@ == self.vm_snapshot_path_of(vmid, sid),
    {
        let mut name = id_text(sid);
        name.append(".vm");
        join_path(&self.snapshot_dir(vmid), &name)
    }
}

} // verus!
