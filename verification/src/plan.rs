//! The plans that the copy statement is compiled to, and what the catalog and
//! the stage report about tables and files.

use vstd::prelude::*;
use vstd::string::*;
use crate::datavalues::DataField;
use crate::datavalues::DataSchema;
use crate::datavalues::clone_scalars;
use crate::datavalues::typed_values;
use crate::datavalues::DataType;
use crate::datavalues::Scalar;
use crate::datavalues::Value;
use crate::partition::clone_files;
use crate::partition::PartInfo;
use crate::partition::StageFileInfo;

verus! {

/// How rows are split into blocks on their way into a table.
#[derive(Clone, Copy, Debug, PartialEq, Eq, Structural)]
pub struct BlockThresholds {
    pub max_rows_per_block: usize,
    pub min_rows_per_block: usize,
    pub max_bytes_per_block: usize,
}

/// How a copy writes into its target.
#[derive(Clone, Copy, Debug, PartialEq, Eq, Structural)]
pub enum CopyIntoTableMode {
    Insert { overwrite: bool },
    Replace,
    Copy,
}

/// What a copy does besides, or instead of, loading.
#[derive(Clone, Copy, Debug, PartialEq, Eq, Structural)]
pub enum ValidationMode {
    /// Load the data without validating it first.
    Load,
    ReturnNRows(u64),
    ReturnErrors,
    ReturnAllErrors,
}

/// How an append treats the blocks it is given.
#[derive(Clone, Copy, Debug, PartialEq, Eq, Structural)]
pub enum AppendMode {
    Normal,
    Copy,
}

/// How the fragments on either side of an exchange are connected.
#[derive(Clone, Copy, Debug, PartialEq, Eq, Structural)]
pub enum FragmentKind {
    /// Every upstream fragment feeds one downstream consumer.
    Merge,
    /// Each row goes to one downstream partition, chosen by a hash of the keys.
    Shuffle,
    /// Each row goes to every downstream partition.
    Broadcast,
}

/// A stage: a named place that files are copied from or to.
#[derive(Debug)]
pub struct StageInfo {
    pub stage_name: String,
    /// Whether files are removed from the stage once they were copied.
    pub purge: bool,
}

impl Clone for StageInfo {
    fn clone(&self) -> (r: Self)
        ensures
            r == *self,
    {
        StageInfo { stage_name: self.stage_name.clone(), purge: self.purge }
    }
}

/// Which files of a stage a statement names.
#[derive(Debug)]
pub struct StageFilesInfo {
    pub path: String,
    pub files: Option<Vec<String>>,
    pub pattern: Option<String>,
}

/// The mathematical content of a [`StageFilesInfo`].
pub struct StageFilesInfoView {
    pub path: String,
    pub files: Option<Seq<String>>,
    pub pattern: Option<String>,
}

impl View for StageFilesInfo {
    type V = StageFilesInfoView;

    open spec fn view(&self) -> StageFilesInfoView {
        StageFilesInfoView {
            path: self.path,
            files: match self.files {
                Some(names) => Some(names@),
                None => None,
            },
            pattern: self.pattern,
        }
    }
}

fn clone_names(names: &Vec<String>) -> (copy: Vec<String>)
    ensures
        copy@ == names@,
{
    let mut copy: Vec<String> = Vec::new();
    let mut i: usize = 0;
    while i < names.len()
        invariant
            i <= names.len(),
            copy@ == names@.subrange(0, i as int),
        decreases names.len() - i,
    {
        copy.push(names[i].clone());
        i += 1;
    }
    assert(names@.subrange(0, names.len() as int) == names@);
    copy
}

impl Clone for StageFilesInfo {
    fn clone(&self) -> (r: Self)
        ensures
            r@ == self@,
    {
        let files = match &self.files {
            Some(names) => Some(clone_names(names)),
            None => None,
        };
        let pattern = match &self.pattern {
            Some(p) => Some(p.clone()),
            None => None,
        };
        StageFilesInfo { path: self.path.clone(), files, pattern }
    }
}

/// A stage seen as a table: its schema, the stage, and the files to read.
#[derive(Debug)]
pub struct StageTableInfo {
    pub schema: DataSchema,
    pub stage_info: StageInfo,
    pub files_info: StageFilesInfo,
    pub files_to_copy: Option<Vec<StageFileInfo>>,
    pub is_select: bool,
}

/// The mathematical content of a [`StageTableInfo`].
pub struct StageTableInfoView {
    pub schema: Seq<DataField>,
    pub stage_info: StageInfo,
    pub files_info: StageFilesInfoView,
    pub files_to_copy: Option<Seq<StageFileInfo>>,
    pub is_select: bool,
}

impl View for StageTableInfo {
    type V = StageTableInfoView;

    open spec fn view(&self) -> StageTableInfoView {
        StageTableInfoView {
            schema: self.schema@,
            stage_info: self.stage_info,
            files_info: self.files_info@,
            files_to_copy: match self.files_to_copy {
                Some(files) => Some(files@),
                None => None,
            },
            is_select: self.is_select,
        }
    }
}

impl Clone for StageTableInfo {
    fn clone(&self) -> (r: Self)
        ensures
            r@ == self@,
    {
        let files_to_copy = match &self.files_to_copy {
            Some(files) => Some(clone_files(files)),
            None => None,
        };
        StageTableInfo {
            schema: self.schema.clone(),
            stage_info: self.stage_info.clone(),
            files_info: self.files_info.clone(),
            files_to_copy,
            is_select: self.is_select,
        }
    }
}

/// What the catalog records of a table.
#[derive(Debug)]
pub struct TableInfo {
    pub table_id: u64,
    pub name: String,
}

impl Clone for TableInfo {
    fn clone(&self) -> (r: Self)
        ensures
            r == *self,
    {
        TableInfo { table_id: self.table_id, name: self.name.clone() }
    }
}

/// A table as the catalog hands it out.
#[derive(Debug)]
pub struct Table {
    pub info: TableInfo,
    pub block_thresholds: BlockThresholds,
}

impl Table {
    /// What the catalog records of this table.
    pub fn get_table_info(&self) -> (info: &TableInfo)
        ensures
            *info == self.info,
    {
        &self.info
    }

    /// How rows are split into blocks on their way into this table.
    pub fn get_block_thresholds(&self) -> (t: BlockThresholds)
        ensures
            t == self.block_thresholds,
    {
        self.block_thresholds
    }
}

/// A read plan: the partitions that a table's storage splits a read into.
#[derive(Debug)]
pub struct DataSourcePlan {
    pub catalog: String,
    pub parts: Vec<PartInfo>,
}

/// One output column of a bound query.
#[derive(Debug)]
pub struct ColumnBinding {
    pub column_name: String,
    pub data_type: DataType,
}

impl Clone for ColumnBinding {
    fn clone(&self) -> (r: Self)
        ensures
            r == *self,
    {
        ColumnBinding { column_name: self.column_name.clone(), data_type: self.data_type }
    }
}

/// A bound query, as far as the copy looks into it: its output columns.
#[derive(Debug)]
pub struct QueryPlan {
    pub columns: Vec<ColumnBinding>,
}

impl View for QueryPlan {
    type V = Seq<ColumnBinding>;

    open spec fn view(&self) -> Seq<ColumnBinding> {
        self.columns@
    }
}

impl Clone for QueryPlan {
    fn clone(&self) -> (r: Self)
        ensures
            r@ == self@,
    {
        let mut columns: Vec<ColumnBinding> = Vec::new();
        let mut i: usize = 0;
        while i < self.columns.len()
            invariant
                i <= self.columns.len(),
                columns@ == self.columns@.subrange(0, i as int),
            decreases self.columns.len() - i,
        {
            columns.push(self.columns[i].clone());
            i += 1;
        }
        assert(self.columns@.subrange(0, self.columns.len() as int) == self.columns@);
        QueryPlan { columns }
    }
}

/// The plan of a copy into a table.
#[derive(Debug)]
pub struct CopyIntoTablePlan {
    pub catalog_name: String,
    pub database_name: String,
    pub table_name: String,
    pub required_values_schema: DataSchema,
    /// The constants that fill the columns which the source does not have.
    pub values_consts: Vec<Scalar>,
    pub required_source_schema: DataSchema,
    pub write_mode: CopyIntoTableMode,
    pub validation_mode: ValidationMode,
    pub force: bool,
    pub stage_table_info: StageTableInfo,
    pub query: Option<QueryPlan>,
    pub enable_distributed: bool,
}

/// The mathematical content of a [`CopyIntoTablePlan`].
pub struct CopyIntoTablePlanView {
    pub catalog_name: String,
    pub database_name: String,
    pub table_name: String,
    pub required_values_schema: Seq<DataField>,
    pub values_consts: Seq<(DataType, Value)>,
    pub required_source_schema: Seq<DataField>,
    pub write_mode: CopyIntoTableMode,
    pub validation_mode: ValidationMode,
    pub force: bool,
    pub stage_table_info: StageTableInfoView,
    pub query: Option<Seq<ColumnBinding>>,
    pub enable_distributed: bool,
}

impl View for CopyIntoTablePlan {
    type V = CopyIntoTablePlanView;

    open spec fn view(&self) -> CopyIntoTablePlanView {
        CopyIntoTablePlanView {
            catalog_name: self.catalog_name,
            database_name: self.database_name,
            table_name: self.table_name,
            required_values_schema: self.required_values_schema@,
            values_consts: typed_values(self.values_consts@),
            required_source_schema: self.required_source_schema@,
            write_mode: self.write_mode,
            validation_mode: self.validation_mode,
            force: self.force,
            stage_table_info: self.stage_table_info@,
            query: match self.query {
                Some(query) => Some(query@),
                None => None,
            },
            enable_distributed: self.enable_distributed,
        }
    }
}

impl Clone for CopyIntoTablePlan {
    fn clone(&self) -> (r: Self)
        ensures
            r@ == self@,
    {
        let query = match &self.query {
            Some(query) => Some(query.clone()),
            None => None,
        };
        CopyIntoTablePlan {
            catalog_name: self.catalog_name.clone(),
            database_name: self.database_name.clone(),
            table_name: self.table_name.clone(),
            required_values_schema: self.required_values_schema.clone(),
            values_consts: clone_scalars(&self.values_consts),
            required_source_schema: self.required_source_schema.clone(),
            write_mode: self.write_mode,
            validation_mode: self.validation_mode,
            force: self.force,
            stage_table_info: self.stage_table_info.clone(),
            query,
            enable_distributed: self.enable_distributed,
        }
    }
}

/// The plan of a copy statement.
#[derive(Debug)]
pub enum CopyPlan {
    IntoTable(CopyIntoTablePlan),
    IntoStage { stage: StageInfo, path: String, validation_mode: ValidationMode, from: QueryPlan },
    NoFileToCopy,
}

/// The source of the identifiers of the nodes of a physical plan. Every
/// node takes its identifier from here, so that no two nodes of one plan
/// share one.
#[derive(Debug)]
pub struct PlanIds {
    /// The identifier that is handed out next.
    pub next: u32,
}

impl PlanIds {
    /// The identifier that is handed out after `id`.
    pub open spec fn after(id: u32) -> u32 {
        if id == u32::MAX {
            0
        } else {
            (id + 1) as u32
        }
    }

    /// The identifier that is handed out when `next` is next and `taken` must
    /// not be handed out.
    pub open spec fn other_than(next: u32, taken: u32) -> u32 {
        if next == taken {
            Self::after(next)
        } else {
            next
        }
    }

    /// A source that starts at 0.
    pub fn new() -> (ids: PlanIds)
        ensures
            ids.next == 0,
    {
        PlanIds { next: 0 }
    }

    /// Hands out an identifier.
    pub fn allocate(&mut self) -> (id: u32)
        ensures
            id == old(self).next,
            final(self).next == Self::after(id),
            final(self).next != id,
    {
        let id = self.next;
        self.next = if id == u32::MAX {
            0
        } else {
            id + 1
        };
        id
    }

    /// Hands out an identifier that is not `taken`.
    pub fn allocate_other_than(&mut self, taken: u32) -> (id: u32)
        ensures
            id == Self::other_than(old(self).next, taken),
            id != taken,
            final(self).next == Self::after(id),
    {
        let first = self.allocate();
        if first == taken {
            self.allocate()
        } else {
            first
        }
    }
}

/// Everything a worker needs to read its share of the source files and append
/// it to the target table. It is built once, on the coordinating node, and only
/// read afterwards.
#[derive(Debug)]
pub struct DistributedCopyIntoTable {
    pub plan_id: u32,
    pub catalog_name: String,
    pub database_name: String,
    pub table_name: String,
    pub required_values_schema: DataSchema,
    /// The constants that fill the columns which the source does not have.
    pub values_consts: Vec<Scalar>,
    pub required_source_schema: DataSchema,
    pub write_mode: CopyIntoTableMode,
    pub validation_mode: ValidationMode,
    pub force: bool,
    pub stage_table_info: StageTableInfo,
    pub source: DataSourcePlan,
    pub thresholds: BlockThresholds,
    pub files: Vec<StageFileInfo>,
    pub table_info: TableInfo,
    pub local_node_id: String,
}

/// A boundary between fragments that run on different nodes.
#[derive(Debug)]
pub struct Exchange {
    pub plan_id: u32,
    pub input: Box<PhysicalPlan>,
    pub kind: FragmentKind,
    /// The columns that rows are routed by, as indices into the input's schema.
    pub keys: Vec<usize>,
}

/// A node of a physical plan, as far as the copy builds one.
#[derive(Debug)]
pub enum PhysicalPlan {
    Exchange(Exchange),
    DistributedCopyIntoTable(Box<DistributedCopyIntoTable>),
}

} // verus!
