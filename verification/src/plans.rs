use vstd::prelude::*;

use crate::expr::Expression;

verus! {

/// A pipeline document, parsed: nodes ("tools") and edges ("links").
/// Immutable once built; the workflow builder consumes it.
#[derive(Debug)]
pub struct Plan {
    pub id: String,
    pub name: String,
    pub links: Vec<Link>,
    pub tools: Vec<Tool>,
}

/// Which input slot of the destination a link feeds.  Binary operators
/// consume two upstream results; the slot selects which.
#[derive(Clone, Copy, Debug, Default, PartialEq, Eq, Structural)]
#[allow(non_camel_case_types)]
pub enum InputSide {
    #[default]
    left,
    right,
}

/// A directed edge of the plan: data flows from the tool named `src` into
/// the `input` slot of the tool named `dst`.
#[derive(Debug)]
pub struct Link {
    pub src: String,
    pub dst: String,
    pub input: InputSide,
}

/// One node of the plan, tagged by operator kind, owning its fully
/// resolved configuration.
#[allow(non_camel_case_types)]
#[derive(Debug)]
pub enum Tool {
    import(Import),
    export(Export),
    distinct(Generic),
    difference(Generic),
    filter(Filter),
    intersect(Generic),
    join(Join),
    map(MapOp),
    select(Select),
    sort(Sort),
    summarize(Summarize),
    union(Union),
}

impl Tool {
    /// The identifier this tool declares.
    pub open spec fn spec_id(self) -> Seq<char> {
        match self {
            Tool::import(tool) => tool.spec_id(),
            Tool::export(tool) => tool.spec_id(),
            Tool::distinct(tool) => tool.id@,
            Tool::difference(tool) => tool.id@,
            Tool::filter(tool) => tool.id@,
            Tool::intersect(tool) => tool.id@,
            Tool::join(tool) => tool.id@,
            Tool::map(tool) => tool.id@,
            Tool::select(tool) => tool.id@,
            Tool::sort(tool) => tool.id@,
            Tool::summarize(tool) => tool.id@,
            Tool::union(tool) => tool.id@,
        }
    }

    /// The identifier this tool declares.
    pub fn id(&self) -> (r: String)
        ensures
            r@ == self.spec_id(),
    {
        match self {
            Tool::import(tool) => tool.id(),
            Tool::export(tool) => tool.id(),
            Tool::distinct(tool) => tool.id.clone(),
            Tool::difference(tool) => tool.id.clone(),
            Tool::filter(tool) => tool.id.clone(),
            Tool::intersect(tool) => tool.id.clone(),
            Tool::join(tool) => tool.id.clone(),
            Tool::map(tool) => tool.id.clone(),
            Tool::select(tool) => tool.id.clone(),
            Tool::sort(tool) => tool.id.clone(),
            Tool::summarize(tool) => tool.id.clone(),
            Tool::union(tool) => tool.id.clone(),
        }
    }
}

/// An import node, sub-tagged by source format.
#[allow(non_camel_case_types)]
#[derive(Debug)]
pub enum Import {
    csv(ImportCsv),
    avro(ImportAvro),
    parquet(ImportParquet),
}

impl Import {
    /// The identifier this import declares.
    pub open spec fn spec_id(self) -> Seq<char> {
        match self {
            Import::csv(tool) => tool.id@,
            Import::avro(tool) => tool.id@,
            Import::parquet(tool) => tool.id@,
        }
    }

    /// The identifier this import declares.
    pub fn id(&self) -> (r: String)
        ensures
            r@ == self.spec_id(),
    {
        match self {
            Import::csv(tool) => tool.id.clone(),
            Import::avro(tool) => tool.id.clone(),
            Import::parquet(tool) => tool.id.clone(),
        }
    }
}

/// A primitive column type a plan schema can declare.
#[derive(Clone, Copy, Debug, PartialEq, Eq, Structural)]
#[allow(non_camel_case_types)]
pub enum SchemaDataType {
    utf8,
    bool,
    null,
    ts,
    ms,
    ns,
    i8,
    i16,
    i32,
    i64,
    u8,
    u16,
    u32,
    u64,
    float16,
    float32,
    float64,
    date,
}

/// One declared column of an import schema.
#[derive(Debug, Clone)]
pub struct SchemaField {
    pub column: String,
    pub nullable: Option<bool>,
    pub variant: SchemaDataType,
}

/// An engine query statement to run against the source, registered under
/// `table`.
#[derive(Debug, Clone)]
pub struct Sql {
    pub stmt: String,
    pub table: String,
}

/// A CSV source: path, optional row limit, header flag, delimiter,
/// explicit schema, and optional registered-SQL read.
#[derive(Debug)]
pub struct ImportCsv {
    pub id: String,
    pub path: String,
    pub limit: Option<usize>,
    pub header: Option<bool>,
    pub delimiter: Option<u8>,
    pub schema: Option<Vec<SchemaField>>,
    pub sql: Option<Sql>,
}

/// An Avro source.
#[derive(Debug)]
pub struct ImportAvro {
    pub id: String,
    pub path: String,
    pub limit: Option<usize>,
    pub sql: Option<Sql>,
}

/// A Parquet source.
#[derive(Debug)]
pub struct ImportParquet {
    pub id: String,
    pub path: String,
    pub limit: Option<usize>,
    pub sql: Option<Sql>,
}

/// An export node, sub-tagged by sink format.
#[allow(non_camel_case_types)]
#[derive(Debug)]
pub enum Export {
    csv(ExportCsv),
    json(ExportJson),
    parquet(ExportParquet),
}

impl Export {
    /// The identifier this export declares.
    pub open spec fn spec_id(self) -> Seq<char> {
        match self {
            Export::csv(tool) => tool.id@,
            Export::json(tool) => tool.id@,
            Export::parquet(tool) => tool.id@,
        }
    }

    /// The identifier this export declares.
    pub fn id(&self) -> (r: String)
        ensures
            r@ == self.spec_id(),
    {
        match self {
            Export::csv(tool) => tool.id.clone(),
            Export::json(tool) => tool.id.clone(),
            Export::parquet(tool) => tool.id.clone(),
        }
    }
}

/// A CSV sink.
#[derive(Debug)]
pub struct ExportCsv {
    pub id: String,
    pub path: String,
    pub overwrite: Option<bool>,
}

/// A line-delimited JSON sink.
#[derive(Debug)]
pub struct ExportJson {
    pub id: String,
    pub path: String,
    pub overwrite: Option<bool>,
}

/// A Parquet sink with optional compression.
#[derive(Debug)]
pub struct ExportParquet {
    pub id: String,
    pub path: String,
    pub compress: Option<ParquetCompression>,
    pub overwrite: Option<bool>,
}

/// The compression codecs a Parquet export may request.
#[derive(Clone, Copy, Debug, PartialEq, Eq, Structural)]
#[allow(non_camel_case_types)]
pub enum ParquetCompression {
    brotli,
    gzip,
    lzo,
    lz4,
    lz4_raw,
    snappy,
    zstd,
}

/// The join variants the engine offers.
#[derive(Clone, Copy, Debug, PartialEq, Eq, Structural)]
#[allow(non_camel_case_types)]
pub enum JoinType {
    inner,
    left,
    right,
    full,
    left_semi,
    right_semi,
    left_anti,
    right_anti,
}

/// A transform that carries nothing but its identifier.
#[derive(Debug)]
pub struct Generic {
    pub id: String,
}

/// A row filter: keep the rows on which `expr` is true.
#[derive(Debug)]
pub struct Filter {
    pub id: String,
    pub expr: Expression,
}

/// A typed join on paired key-column lists.
#[derive(Debug)]
pub struct Join {
    pub id: String,
    pub lt: Vec<String>,
    pub rt: Vec<String>,
    pub variant: JoinType,
}

/// A projection onto computed columns.
#[derive(Debug)]
pub struct MapOp {
    pub id: String,
    pub exprs: Vec<Expression>,
}

/// A column pick with optional renames.
#[derive(Debug)]
pub struct Select {
    pub id: String,
    pub columns: Vec<String>,
    pub aliases: Vec<(String, String)>,
}

/// A sort over decorated sort keys.
#[derive(Debug)]
pub struct Sort {
    pub id: String,
    pub exprs: Vec<SortExpression>,
}

/// A group-and-aggregate.
#[derive(Debug)]
pub struct Summarize {
    pub id: String,
    pub aggr: Vec<Expression>,
    pub group: Vec<Expression>,
}

/// A concatenation of two inputs, optionally de-duplicated.
#[derive(Debug)]
pub struct Union {
    pub id: String,
    pub distinct: Option<bool>,
}

/// A sort key: an expression decorated with direction and null placement.
#[derive(Debug)]
pub struct SortExpression {
    pub asc: Option<bool>,
    pub nulls_first: Option<bool>,
    pub expr: Expression,
}

} // verus!
