//! Per-pool table names and the SQL text that names them.
//!
//! A table name is interpolated into statement text, so it is checked to be
//! a plain identifier (`[A-Za-z0-9_]+`) before any statement is formed; all
//! values are bound as parameters.
use vstd::prelude::*;
use crate::error::VmManageError;
use crate::ids::{id_simple_text, simple_text, lemma_hex_text_chars, lemma_hex_text_len, is_hex_char};

verus! {

pub const DEFAULT_MACHINE_CORE_TABLE: &'static str = "machine_core";
pub const DEFAULT_VM_CONFIG_TABLE: &'static str = "vmconfig";
pub const DEFAULT_VM_MEM_SNAPSHOT_TABLE: &'static str = "snapshots";
pub const DEFAULT_VOLUME_TABLE: &'static str = "volume";

pub open spec fn is_ident_char(c: char) -> bool {
    ('A' <= c && c <= 'Z') || ('a' <= c && c <= 'z') || ('0' <= c && c <= '9') || c == '_'
}

/// Matches `[A-Za-z0-9_]+`.
pub open spec fn is_identifier(s: Seq<char>) -> bool {
    s.len() > 0 && forall|i: int| 0 <= i < s.len() ==> is_ident_char(#[trigger] s[i])
}

/// `<base>_<pool id as 32 hex digits>`.
pub open spec fn table_name_of(base: Seq<char>, pool_id: u128) -> Seq<char> {
    base + "_"@ + simple_text(pool_id)
}

/// Whether `s` matches `[A-Za-z0-9_]+`.
pub fn is_valid_identifier(s: &String) -> (r: bool)
    ensures
        r == is_identifier(s@),
{
    let n = s.as_str().unicode_len();
    if n == 0 {
        return false;
    }
    let mut i: usize = 0;
    while i < n
        invariant
            n == s@.len(),
            i <= n,
            forall|j: int| 0 <= j < i ==> is_ident_char(#[trigger] s@[j]),
        decreases n - i,
    {
        let c = s.as_str().get_char(i);
        let ok = ('A' <= c && c <= 'Z') || ('a' <= c && c <= 'z') || ('0' <= c && c <= '9') || c == '_';
        if !ok {
            return false;
        }
        i = i + 1;
    }
    true
}

/// The table name derived from `base` for the pool, or `InvalidTableName`
/// when it is not a plain identifier.
pub fn table_name(base: &String, pool_id: u128) -> (r: Result<String, VmManageError>)
    ensures
        is_identifier(table_name_of(base@, pool_id)) <==> r is Ok,
        r matches Ok(t) ==> t@ == table_name_of(base@, pool_id),
        r matches Err(e) ==> e matches VmManageError::InvalidTableName(t) && t@ == table_name_of(
            base@,
            pool_id,
        ),
{
    let mut name = base.clone();
    name.append("_");
    name.append(id_simple_text(pool_id).as_str());
    proof {
        reveal_strlit("_");
    }
    if is_valid_identifier(&name) {
        Ok(name)
    } else {
        Err(VmManageError::InvalidTableName(name))
    }
}

/// A base made of letters, digits and underscores (possibly empty) always
/// yields a valid table name; a base with any other character never does.
pub proof fn lemma_table_name_valid(base: Seq<char>, pool_id: u128)
    ensures
        is_identifier(table_name_of(base, pool_id)) <==> (forall|i: int|
            0 <= i < base.len() ==> is_ident_char(#[trigger] base[i])),
{
    reveal_strlit("_");
    let t = table_name_of(base, pool_id);
    lemma_hex_text_chars(pool_id as nat, 32);
    lemma_hex_text_len(pool_id as nat, 32);
    let s = simple_text(pool_id);
    assert forall|i: int| 0 <= i < s.len() implies is_ident_char(#[trigger] s[i]) by {
        assert(is_hex_char(s[i]));
    }
    if forall|i: int| 0 <= i < base.len() ==> is_ident_char(#[trigger] base[i]) {
        assert forall|i: int| 0 <= i < t.len() implies is_ident_char(#[trigger] t[i]) by {
            if i < base.len() {
                assert(t[i] == base[i]);
            } else if i > base.len() {
                assert(t[i] == s[i - base.len() - 1]);
            }
        }
    }
    if is_identifier(t) {
        assert forall|i: int| 0 <= i < base.len() implies is_ident_char(#[trigger] base[i]) by {
            assert(t[i] == base[i]);
        }
    }
}

/// The four table names of a pool.
#[derive(Debug)]
pub struct Tables {
    pub machine_core: String,
    pub vm_config: String,
    pub snapshots: String,
    pub volume: String,
}

/// The statements the pool issues.
#[derive(Debug, Clone, Copy, PartialEq, Eq, Structural)]
pub enum Statement {
    DropMachineCore,
    CreateMachineCore,
    DropVmConfig,
    CreateVmConfig,
    DropSnapshots,
    CreateSnapshots,
    DropVolume,
    CreateVolume,
    GetCore,
    InsertCore,
    UpdateCore,
    DeleteCore,
    InsertConfig,
    DeleteConfig,
    InsertVolume,
    DeleteVolume,
    ListVolumes,
    InsertSnapshot,
    DeleteSnapshot,
    ListSnapshots,
}

impl Tables {
    pub open spec fn wf(self) -> bool {
        &&& is_identifier(self.machine_core@)
        &&& is_identifier(self.vm_config@)
        &&& is_identifier(self.snapshots@)
        &&& is_identifier(self.volume@)
    }

    /// Derives and checks the four table names of the pool.
    pub fn new(
        machine_core_base: &String,
        vm_config_base: &String,
        snapshots_base: &String,
        volume_base: &String,
        pool_id: u128,
    ) -> (r: Result<Tables, VmManageError>)
        ensures
            r is Ok <==> (is_identifier(table_name_of(machine_core_base@, pool_id))
                && is_identifier(table_name_of(vm_config_base@, pool_id))
                && is_identifier(table_name_of(snapshots_base@, pool_id))
                && is_identifier(table_name_of(volume_base@, pool_id))),
            r matches Ok(t) ==> t.wf() && t.machine_core@ == table_name_of(machine_core_base@, pool_id)
                && t.vm_config@ == table_name_of(vm_config_base@, pool_id) && t.snapshots@
                == table_name_of(snapshots_base@, pool_id) && t.volume@ == table_name_of(
                volume_base@,
                pool_id,
            ),
            r matches Err(e) ==> e is InvalidTableName,
    {
        let machine_core = table_name(machine_core_base, pool_id)?;
        let vm_config = table_name(vm_config_base, pool_id)?;
        let snapshots = table_name(snapshots_base, pool_id)?;
        let volume = table_name(volume_base, pool_id)?;
        Ok(Tables { machine_core, vm_config, snapshots, volume })
    }

    /// The text of a statement over these tables. Values are bound as `$n`.
    pub open spec fn sql_of(self, s: Statement) -> Seq<char> {
        match s {
            Statement::DropMachineCore => "DROP TABLE IF EXISTS "@ + self.machine_core@,
            Statement::CreateMachineCore => "CREATE TABLE IF NOT EXISTS "@ + self.machine_core@
                + " (vmid UUID PRIMARY KEY, core JSON, status SMALLINT)"@,
            Statement::DropVmConfig => "DROP TABLE IF EXISTS "@ + self.vm_config@,
            Statement::CreateVmConfig => "CREATE TABLE IF NOT EXISTS "@ + self.vm_config@
                + " (vmid UUID PRIMARY KEY, config JSON)"@,
            Statement::DropSnapshots => "DROP TABLE IF EXISTS "@ + self.snapshots@,
            Statement::CreateSnapshots => "CREATE TABLE IF NOT EXISTS "@ + self.snapshots@
                + " (vmid UUID, snapshot_id UUID, mem_file_path TEXT, vm_file_path TEXT, PRIMARY KEY (vmid, snapshot_id))"@,
            Statement::DropVolume => "DROP TABLE IF EXISTS "@ + self.volume@,
            Statement::CreateVolume => "CREATE TABLE IF NOT EXISTS "@ + self.volume@
                + " (vmid UUID, volume_id UUID, PRIMARY KEY (vmid, volume_id))"@,
            Statement::GetCore => "SELECT core, status FROM "@ + self.machine_core@
                + " WHERE vmid = $1"@,
            Statement::InsertCore => "INSERT INTO "@ + self.machine_core@
                + " (vmid, core, status) VALUES ($1, $2, $3)"@,
            Statement::UpdateCore => "UPDATE "@ + self.machine_core@
                + " SET core = $1, status = $2 WHERE vmid = $3"@,
            Statement::DeleteCore => "DELETE FROM "@ + self.machine_core@ + " WHERE vmid = $1"@,
            Statement::InsertConfig => "INSERT INTO "@ + self.vm_config@
                + " (vmid, config) VALUES ($1, $2)"@,
            Statement::DeleteConfig => "DELETE FROM "@ + self.vm_config@ + " WHERE vmid = $1"@,
            Statement::InsertVolume => "INSERT INTO "@ + self.volume@
                + " (vmid, volume_id) VALUES ($1, $2)"@,
            Statement::DeleteVolume => "DELETE FROM "@ + self.volume@
                + " WHERE vmid = $1 AND volume_id = $2"@,
            Statement::ListVolumes => "SELECT volume_id FROM "@ + self.volume@
                + " WHERE vmid = $1"@,
            Statement::InsertSnapshot => "INSERT INTO "@ + self.snapshots@
                + " (vmid, snapshot_id, mem_file_path, vm_file_path) VALUES ($1, $2, $3, $4)"@,
            Statement::DeleteSnapshot => "DELETE FROM "@ + self.snapshots@
                + " WHERE vmid = $1 AND snapshot_id = $2"@,
            Statement::ListSnapshots => "SELECT snapshot_id FROM "@ + self.snapshots@
                + " WHERE vmid = $1"@,
        }
    }

    /// The text of statement `s` over these tables.
    pub fn sql(&self, s: Statement) -> (r: String)
        ensures
            r@ == self.sql_of(s),
    {
        proof {
            reveal_strlit("");
        }
        match s {
            Statement::DropMachineCore => around("DROP TABLE IF EXISTS ", &self.machine_core, ""),
            Statement::CreateMachineCore => around(
                "CREATE TABLE IF NOT EXISTS ",
                &self.machine_core,
                " (vmid UUID PRIMARY KEY, core JSON, status SMALLINT)",
            ),
            Statement::DropVmConfig => around("DROP TABLE IF EXISTS ", &self.vm_config, ""),
            Statement::CreateVmConfig => around(
                "CREATE TABLE IF NOT EXISTS ",
                &self.vm_config,
                " (vmid UUID PRIMARY KEY, config JSON)",
            ),
            Statement::DropSnapshots => around("DROP TABLE IF EXISTS ", &self.snapshots, ""),
            Statement::CreateSnapshots => around(
                "CREATE TABLE IF NOT EXISTS ",
                &self.snapshots,
                " (vmid UUID, snapshot_id UUID, mem_file_path TEXT, vm_file_path TEXT, PRIMARY KEY (vmid, snapshot_id))",
            ),
            Statement::DropVolume => around("DROP TABLE IF EXISTS ", &self.volume, ""),
            Statement::CreateVolume => around(
                "CREATE TABLE IF NOT EXISTS ",
                &self.volume,
                " (vmid UUID, volume_id UUID, PRIMARY KEY (vmid, volume_id))",
            ),
            Statement::GetCore => around("SELECT core, status FROM ", &self.machine_core, " WHERE vmid = $1"),
            Statement::InsertCore => around(
                "INSERT INTO ",
                &self.machine_core,
                " (vmid, core, status) VALUES ($1, $2, $3)",
            ),
            Statement::UpdateCore => around(
                "UPDATE ",
                &self.machine_core,
                " SET core = $1, status = $2 WHERE vmid = $3",
            ),
            Statement::DeleteCore => around("DELETE FROM ", &self.machine_core, " WHERE vmid = $1"),
            Statement::InsertConfig => around(
                "INSERT INTO ",
                &self.vm_config,
                " (vmid, config) VALUES ($1, $2)",
            ),
            Statement::DeleteConfig => around("DELETE FROM ", &self.vm_config, " WHERE vmid = $1"),
            Statement::InsertVolume => around(
                "INSERT INTO ",
                &self.volume,
                " (vmid, volume_id) VALUES ($1, $2)",
            ),
            Statement::DeleteVolume => around(
                "DELETE FROM ",
                &self.volume,
                " WHERE vmid = $1 AND volume_id = $2",
            ),
            Statement::ListVolumes => around("SELECT volume_id FROM ", &self.volume, " WHERE vmid = $1"),
            Statement::InsertSnapshot => around(
                "INSERT INTO ",
                &self.snapshots,
                " (vmid, snapshot_id, mem_file_path, vm_file_path) VALUES ($1, $2, $3, $4)",
            ),
            Statement::DeleteSnapshot => around(
                "DELETE FROM ",
                &self.snapshots,
                " WHERE vmid = $1 AND snapshot_id = $2",
            ),
            Statement::ListSnapshots => around(
                "SELECT snapshot_id FROM ",
                &self.snapshots,
                " WHERE vmid = $1",
            ),
        }
    }
}

/// The error a failed statement surfaces as.
pub open spec fn statement_error_of(s: Statement) -> VmManageError {
    match s {
        Statement::DropMachineCore | Statement::DropVmConfig | Statement::DropSnapshots
        | Statement::DropVolume => VmManageError::DBDropTable,
        Statement::CreateMachineCore | Statement::CreateVmConfig | Statement::CreateSnapshots
        | Statement::CreateVolume => VmManageError::DBCreateTable,
        Statement::GetCore | Statement::ListVolumes | Statement::ListSnapshots => VmManageError::DBFetching,
        Statement::InsertCore | Statement::InsertConfig | Statement::InsertVolume
        | Statement::InsertSnapshot => VmManageError::DBInsertion,
        Statement::UpdateCore => VmManageError::DBUpdating,
        Statement::DeleteCore | Statement::DeleteConfig | Statement::DeleteVolume
        | Statement::DeleteSnapshot => VmManageError::DBDeleting,
    }
}

/// The error a failed statement surfaces as.
pub fn statement_error(s: Statement) -> (r: VmManageError)
    ensures
        r == statement_error_of(s),
{
    match s {
        Statement::DropMachineCore | Statement::DropVmConfig | Statement::DropSnapshots
        | Statement::DropVolume => VmManageError::DBDropTable,
        Statement::CreateMachineCore | Statement::CreateVmConfig | Statement::CreateSnapshots
        | Statement::CreateVolume => VmManageError::DBCreateTable,
        Statement::GetCore | Statement::ListVolumes | Statement::ListSnapshots => VmManageError::DBFetching,
        Statement::InsertCore | Statement::InsertConfig | Statement::InsertVolume
        | Statement::InsertSnapshot => VmManageError::DBInsertion,
        Statement::UpdateCore => VmManageError::DBUpdating,
        Statement::DeleteCore | Statement::DeleteConfig | Statement::DeleteVolume
        | Statement::DeleteSnapshot => VmManageError::DBDeleting,
    }
}

/// The statements that set up a pool's tables, in order: each table is
/// dropped, then created afresh.
pub open spec fn init_statements_of() -> Seq<Statement> {
    seq![
        Statement::DropMachineCore,
        Statement::CreateMachineCore,
        Statement::DropSnapshots,
        Statement::CreateSnapshots,
        Statement::DropVmConfig,
        Statement::CreateVmConfig,
        Statement::DropVolume,
        Statement::CreateVolume,
    ]
}

/// The statements that set up a pool's tables, in order.
pub fn init_statements() -> (r: Vec<Statement>)
    ensures
        r@ == init_statements_of(),
{
    let r = vec![
        Statement::DropMachineCore,
        Statement::CreateMachineCore,
        Statement::DropSnapshots,
        Statement::CreateSnapshots,
        Statement::DropVmConfig,
        Statement::CreateVmConfig,
        Statement::DropVolume,
        Statement::CreateVolume,
    ];
    assert(r@ =~= init_statements_of());
    r
}

/// `head`, then the table name, then `tail`.
fn around(head: &str, table: &String, tail: &str) -> (r: String)
    ensures
        r@ == head@ + table@ + tail@,
{
    let mut r = String::from_str(head);
    r.append(table.as_str());
    r.append(tail);
    r
}

} // verus!
