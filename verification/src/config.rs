use vstd::prelude::*;

use crate::errors::PlanError;
use crate::expr::{
    convert, convert_list, spec_compile, spec_compile_seq, view_expr_seq, EngineExpr,
};
use crate::plans::{
    ExportCsv, ExportJson, ExportParquet, Filter, ImportAvro, ImportCsv, ImportParquet, Join,
    JoinType, MapOp, ParquetCompression, SchemaDataType, SchemaField, Select, Sort, Sql,
    Summarize, Union,
};

verus! {

/// Copy a list of strings; string cloning preserves the value.
fn clone_strings(v: &Vec<String>) -> (r: Vec<String>)
    ensures
        r@ == v@,
{
    let mut out: Vec<String> = Vec::new();
    let n = v.len();
    let mut i: usize = 0;
    while i < n
        invariant
            0 <= i <= n,
            n == v@.len(),
            out@ == v@.subrange(0, i as int),
        decreases n - i,
    {
        out.push(v[i].clone());
        i = i + 1;
    }
    assert(out@ =~= v@);
    out
}

/// Copy a list of rename pairs.
fn clone_pairs(v: &Vec<(String, String)>) -> (r: Vec<(String, String)>)
    ensures
        r@ == v@,
{
    let mut out: Vec<(String, String)> = Vec::new();
    let n = v.len();
    let mut i: usize = 0;
    while i < n
        invariant
            0 <= i <= n,
            n == v@.len(),
            out@ == v@.subrange(0, i as int),
        decreases n - i,
    {
        let (a, b) = (&v[i].0, &v[i].1);
        out.push((a.clone(), b.clone()));
        i = i + 1;
    }
    assert(out@ =~= v@);
    out
}

/// One resolved schema column: the nullability default applied, so the
/// shell hands the engine exactly what is stated here.
#[derive(Debug, Clone)]
pub struct FieldConfig {
    pub column: String,
    pub variant: SchemaDataType,
    pub nullable: bool,
}

/// A resolved field corresponds to a declared one: name and type kept, a
/// missing nullability flag meaning nullable.
pub open spec fn field_matches(resolved: FieldConfig, declared: SchemaField) -> bool {
    &&& resolved.column == declared.column
    &&& resolved.variant == declared.variant
    &&& resolved.nullable == declared.nullable.unwrap_or(true)
}

/// Resolve a declared schema, field for field, in declaration order.
fn resolve_fields(v: &Vec<SchemaField>) -> (r: Vec<FieldConfig>)
    ensures
        r@.len() == v@.len(),
        forall|i: int| 0 <= i < v@.len() ==> field_matches(#[trigger] r@[i], v@[i]),
{
    let mut out: Vec<FieldConfig> = Vec::new();
    let n = v.len();
    let mut i: usize = 0;
    while i < n
        invariant
            0 <= i <= n,
            n == v@.len(),
            out@.len() == i,
            forall|k: int| 0 <= k < i ==> field_matches(#[trigger] out@[k], v@[k]),
        decreases n - i,
    {
        let f = &v[i];
        out.push(
            FieldConfig {
                column: f.column.clone(),
                variant: f.variant,
                nullable: match f.nullable {
                    Some(b) => b,
                    None => true,
                },
            },
        );
        i = i + 1;
    }
    out
}

/// A registered-SQL read: the statement to run and the table name the
/// source is registered under.
#[derive(Debug, Clone)]
pub struct SqlConfig {
    pub stmt: String,
    pub table: String,
}

impl SqlConfig {
    /// Resolve the plan's SQL clause.
    pub fn new(sql: &Sql) -> (r: SqlConfig)
        ensures
            r.stmt == sql.stmt,
            r.table == sql.table,
    {
        SqlConfig { stmt: sql.stmt.clone(), table: sql.table.clone() }
    }
}

/// The resolved SQL clause corresponds to the plan's, where there is one.
pub open spec fn sql_matches(src: Option<Sql>, dst: Option<SqlConfig>) -> bool {
    match src {
        Some(s) => dst matches Some(c) && c.stmt == s.stmt && c.table == s.table,
        None => dst is None,
    }
}

/// Copy an optional SQL clause.
fn clone_sql(sql: &Option<Sql>) -> (r: Option<SqlConfig>)
    ensures
        match sql {
            Some(s) => r matches Some(c) && c.stmt == s.stmt && c.table == s.table,
            None => r is None,
        },
{
    match sql {
        Some(s) => Some(SqlConfig::new(s)),
        None => None,
    }
}

/// A resolved CSV source: defaults applied (no header, comma delimiter,
/// fields nullable), schema carried field for field.
#[derive(Debug, Clone)]
pub struct CsvInputConfig {
    pub path: String,
    pub header: bool,
    pub delimiter: u8,
    pub sql: Option<SqlConfig>,
    pub limit: Option<usize>,
    pub fields: Option<Vec<FieldConfig>>,
}

impl CsvInputConfig {
    /// The resolved source corresponds to the plan node, defaults applied.
    pub open spec fn matches(self, config: ImportCsv) -> bool {
        &&& self.path == config.path
        &&& self.header == config.header.unwrap_or(false)
        &&& self.delimiter == config.delimiter.unwrap_or(44u8)
        &&& self.limit == config.limit
        &&& sql_matches(config.sql, self.sql)
        &&& match config.schema {
            Some(fs) => self.fields matches Some(g) && g@.len() == fs@.len() && (forall|i: int|
                0 <= i < fs@.len() ==> field_matches(#[trigger] g@[i], fs@[i]))
            ,
            None => self.fields is None,
        }
    }

    /// Resolve a CSV import node: a missing header flag means no header
    /// row, a missing delimiter means a comma, and a field without a
    /// nullability flag is nullable.
    pub fn new(config: &ImportCsv) -> (r: CsvInputConfig)
        ensures
            r.matches(*config),
    {
        let fields = match &config.schema {
            Some(fs) => Some(resolve_fields(fs)),
            None => None,
        };
        CsvInputConfig {
            fields,
            path: config.path.clone(),
            sql: clone_sql(&config.sql),
            limit: config.limit,
            header: match config.header {
                Some(b) => b,
                None => false,
            },
            delimiter: match config.delimiter {
                Some(d) => d,
                None => 44u8,
            },
        }
    }
}

/// A resolved Avro source.
#[derive(Debug, Clone)]
pub struct AvroInputConfig {
    pub path: String,
    pub sql: Option<SqlConfig>,
    pub limit: Option<usize>,
}

impl AvroInputConfig {
    /// The resolved source corresponds to the plan node.
    pub open spec fn matches(self, config: ImportAvro) -> bool {
        &&& self.path == config.path
        &&& self.limit == config.limit
        &&& sql_matches(config.sql, self.sql)
    }

    /// Resolve an Avro import node.
    pub fn new(config: &ImportAvro) -> (r: AvroInputConfig)
        ensures
            r.matches(*config),
    {
        AvroInputConfig {
            path: config.path.clone(),
            sql: clone_sql(&config.sql),
            limit: config.limit,
        }
    }
}

/// A resolved Parquet source.
#[derive(Debug, Clone)]
pub struct ParquetInputConfig {
    pub path: String,
    pub sql: Option<SqlConfig>,
    pub limit: Option<usize>,
}

impl ParquetInputConfig {
    /// The resolved source corresponds to the plan node.
    pub open spec fn matches(self, config: ImportParquet) -> bool {
        &&& self.path == config.path
        &&& self.limit == config.limit
        &&& sql_matches(config.sql, self.sql)
    }

    /// Resolve a Parquet import node.
    pub fn new(config: &ImportParquet) -> (r: ParquetInputConfig)
        ensures
            r.matches(*config),
    {
        ParquetInputConfig {
            path: config.path.clone(),
            sql: clone_sql(&config.sql),
            limit: config.limit,
        }
    }
}

/// A resolved CSV sink: a missing overwrite flag means no overwrite.
#[derive(Debug, Clone)]
pub struct CsvOutputConfig {
    pub path: String,
    pub overwrite: bool,
}

impl CsvOutputConfig {
    /// The resolved sink corresponds to the plan node, defaults applied.
    pub open spec fn matches(self, conf: ExportCsv) -> bool {
        self.path == conf.path && self.overwrite == conf.overwrite.unwrap_or(false)
    }

    /// Resolve a CSV export node.
    pub fn new(conf: &ExportCsv) -> (r: CsvOutputConfig)
        ensures
            r.matches(*conf),
    {
        CsvOutputConfig {
            path: conf.path.clone(),
            overwrite: match conf.overwrite {
                Some(b) => b,
                None => false,
            },
        }
    }
}

/// A resolved line-delimited JSON sink.
#[derive(Debug, Clone)]
pub struct JsonOutputConfig {
    pub path: String,
    pub overwrite: bool,
}

impl JsonOutputConfig {
    /// The resolved sink corresponds to the plan node, defaults applied.
    pub open spec fn matches(self, conf: ExportJson) -> bool {
        self.path == conf.path && self.overwrite == conf.overwrite.unwrap_or(false)
    }

    /// Resolve a JSON export node.
    pub fn new(conf: &ExportJson) -> (r: JsonOutputConfig)
        ensures
            r.matches(*conf),
    {
        JsonOutputConfig {
            path: conf.path.clone(),
            overwrite: match conf.overwrite {
                Some(b) => b,
                None => false,
            },
        }
    }
}

/// A resolved Parquet sink; the compression codec stays as requested and
/// is interpreted at the engine boundary.
#[derive(Debug, Clone)]
pub struct ParquetOutputConfig {
    pub path: String,
    pub overwrite: bool,
    pub compress: Option<ParquetCompression>,
}

impl ParquetOutputConfig {
    /// The resolved sink corresponds to the plan node, defaults applied.
    pub open spec fn matches(self, conf: ExportParquet) -> bool {
        &&& self.path == conf.path
        &&& self.overwrite == conf.overwrite.unwrap_or(false)
        &&& self.compress == conf.compress
    }

    /// Resolve a Parquet export node.
    pub fn new(conf: &ExportParquet) -> (r: ParquetOutputConfig)
        ensures
            r.matches(*conf),
    {
        ParquetOutputConfig {
            path: conf.path.clone(),
            overwrite: match conf.overwrite {
                Some(b) => b,
                None => false,
            },
            compress: conf.compress,
        }
    }
}

/// A resolved join: the variant and the paired key-column lists, which are
/// guaranteed to have equal length.
#[derive(Debug, Clone)]
pub struct JoinConfig {
    pub join_type: JoinType,
    pub left_cols: Vec<String>,
    pub right_cols: Vec<String>,
}

impl JoinConfig {
    /// The key lists pair off one to one.
    pub open spec fn wf(self) -> bool {
        self.left_cols@.len() == self.right_cols@.len()
    }

    /// The resolved join corresponds to the plan node.
    pub open spec fn matches(self, config: Join) -> bool {
        &&& self.join_type == config.variant
        &&& self.left_cols@ == config.lt@
        &&& self.right_cols@ == config.rt@
    }

    /// Resolve a join node.  Key-column lists of unequal length are a
    /// configuration error, rejected here, before any execution.
    pub fn new(config: &Join) -> (r: Result<JoinConfig, PlanError>)
        ensures
            config.lt@.len() == config.rt@.len() ==> (r matches Ok(c) && c.matches(*config)
                && c.wf()),
            config.lt@.len() != config.rt@.len() ==> r == Err::<JoinConfig, PlanError>(
                PlanError::InvalidExpression,
            ),
    {
        if config.lt.len() != config.rt.len() {
            return Err(PlanError::InvalidExpression);
        }
        Ok(
            JoinConfig {
                join_type: config.variant,
                left_cols: clone_strings(&config.lt),
                right_cols: clone_strings(&config.rt),
            },
        )
    }
}

/// A resolved column pick: the columns to keep, in order, and the renames
/// to apply to them.
#[derive(Debug, Clone)]
pub struct SelectConfig {
    pub columns: Vec<String>,
    pub aliases: Vec<(String, String)>,
}

impl SelectConfig {
    /// The resolved pick corresponds to the plan node.
    pub open spec fn matches(self, config: Select) -> bool {
        self.columns@ == config.columns@ && self.aliases@ == config.aliases@
    }

    /// Resolve a select node.
    pub fn new(config: &Select) -> (r: SelectConfig)
        ensures
            r.matches(*config),
    {
        SelectConfig {
            columns: clone_strings(&config.columns),
            aliases: clone_pairs(&config.aliases),
        }
    }
}

/// A resolved union: whether to de-duplicate after concatenation.
#[derive(Debug, Clone)]
pub struct UnionConfig {
    pub distinct: bool,
}

impl UnionConfig {
    /// The resolved union corresponds to the plan node, defaults applied.
    pub open spec fn matches(self, config: Union) -> bool {
        self.distinct == config.distinct.unwrap_or(false)
    }

    /// Resolve a union node: a missing flag means plain concatenation.
    pub fn new(config: &Union) -> (r: UnionConfig)
        ensures
            r.matches(*config),
    {
        UnionConfig {
            distinct: match config.distinct {
                Some(b) => b,
                None => false,
            },
        }
    }
}

/// A resolved filter: the compiled predicate.
#[derive(Debug, Clone)]
pub struct FilterConfig {
    pub expr: EngineExpr,
}

impl FilterConfig {
    /// The resolved filter holds the compiled predicate of the plan node.
    pub open spec fn matches(self, config: Filter) -> bool {
        spec_compile(config.expr) == Some(self.expr@)
    }

    /// Compile a filter node's predicate.
    pub fn new(config: &Filter) -> (r: Result<FilterConfig, PlanError>)
        ensures
            match spec_compile(config.expr) {
                Some(v) => r matches Ok(c) && c.matches(*config),
                None => r == Err::<FilterConfig, PlanError>(PlanError::InvalidExpression),
            },
    {
        match convert(&config.expr) {
            Ok(e) => Ok(FilterConfig { expr: e }),
            Err(e) => Err(e),
        }
    }
}

/// A resolved projection: the compiled column expressions.
#[derive(Debug, Clone)]
pub struct MapConfig {
    pub exprs: Vec<EngineExpr>,
}

impl MapConfig {
    /// The resolved projection holds the compiled expressions of the node.
    pub open spec fn matches(self, config: MapOp) -> bool {
        spec_compile_seq(config.exprs@) == Some(view_expr_seq(self.exprs@))
    }

    /// Compile a projection node's expressions.
    pub fn new(config: &MapOp) -> (r: Result<MapConfig, PlanError>)
        ensures
            match spec_compile_seq(config.exprs@) {
                Some(cs) => r matches Ok(c) && c.matches(*config),
                None => r == Err::<MapConfig, PlanError>(PlanError::InvalidExpression),
            },
    {
        match convert_list(&config.exprs) {
            Ok(es) => Ok(MapConfig { exprs: es }),
            Err(e) => Err(e),
        }
    }
}

/// One resolved sort key: the compiled expression, the direction, and the
/// null placement.
#[derive(Debug, Clone)]
pub struct SortKey {
    pub expr: EngineExpr,
    pub asc: bool,
    pub nulls_first: bool,
}

/// A resolved sort: the compiled keys in order.
#[derive(Debug, Clone)]
pub struct SortConfig {
    pub exprs: Vec<SortKey>,
}

impl SortConfig {
    /// The resolved sort corresponds to the plan node: key for key, with
    /// defaults applied to the decorations.
    pub open spec fn matches(self, config: Sort) -> bool {
        &&& self.exprs@.len() == config.exprs@.len()
        &&& forall|i: int|
            0 <= i < config.exprs@.len() ==> spec_compile(config.exprs@[i].expr) == Some(
                (#[trigger] self.exprs@[i]).expr@,
            )
        &&& forall|i: int|
            0 <= i < config.exprs@.len() ==> (#[trigger] self.exprs@[i]).asc
                == config.exprs@[i].asc.unwrap_or(true)
        &&& forall|i: int|
            0 <= i < config.exprs@.len() ==> (#[trigger] self.exprs@[i]).nulls_first
                == config.exprs@[i].nulls_first.unwrap_or(false)
    }

    /// Whether some key of the plan node has an ill-formed expression.
    pub open spec fn some_key_fails(config: Sort) -> bool {
        exists|i: int|
            0 <= i < config.exprs@.len() && spec_compile(#[trigger] config.exprs@[i].expr) is None
    }

    /// Compile a sort node's keys.  A missing direction means ascending; a
    /// missing null placement means nulls last.
    pub fn new(config: &Sort) -> (r: Result<SortConfig, PlanError>)
        ensures
            match r {
                Ok(c) => c.matches(*config) && !SortConfig::some_key_fails(*config),
                Err(e) => e == PlanError::InvalidExpression && SortConfig::some_key_fails(
                    *config,
                ),
            },
    {
        let mut out: Vec<SortKey> = Vec::new();
        let n = config.exprs.len();
        let mut i: usize = 0;
        while i < n
            invariant
                0 <= i <= n,
                n == config.exprs@.len(),
                out@.len() == i,
                forall|k: int|
                    0 <= k < i ==> spec_compile(config.exprs@[k].expr) == Some(
                        #[trigger] out@[k].expr@,
                    ),
                forall|k: int|
                    0 <= k < i ==> (#[trigger] out@[k].asc) == config.exprs@[k].asc.unwrap_or(
                        true,
                    ),
                forall|k: int|
                    0 <= k < i ==> (#[trigger] out@[k].nulls_first)
                        == config.exprs@[k].nulls_first.unwrap_or(false),
            decreases n - i,
        {
            let key = &config.exprs[i];
            let compiled = match convert(&key.expr) {
                Ok(c) => c,
                Err(e) => {
                    return Err(e);
                },
            };
            out.push(
                SortKey {
                    expr: compiled,
                    asc: match key.asc {
                        Some(b) => b,
                        None => true,
                    },
                    nulls_first: match key.nulls_first {
                        Some(b) => b,
                        None => false,
                    },
                },
            );
            i = i + 1;
        }
        proof {
            assert forall|k: int| 0 <= k < config.exprs@.len() implies !(spec_compile(
                #[trigger] config.exprs@[k].expr,
            ) is None) by {
                assert(spec_compile(config.exprs@[k].expr) == Some(out@[k].expr@));
            }
        }
        Ok(SortConfig { exprs: out })
    }
}

/// A resolved group-and-aggregate: the compiled aggregate expressions and
/// the compiled grouping expressions.
#[derive(Debug, Clone)]
pub struct SummarizeConfig {
    pub aggr: Vec<EngineExpr>,
    pub group: Vec<EngineExpr>,
}

impl SummarizeConfig {
    /// The resolved aggregation holds the compiled expressions of the node.
    pub open spec fn matches(self, config: Summarize) -> bool {
        &&& spec_compile_seq(config.aggr@) == Some(view_expr_seq(self.aggr@))
        &&& spec_compile_seq(config.group@) == Some(view_expr_seq(self.group@))
    }

    /// Compile a summarize node's expressions.
    pub fn new(config: &Summarize) -> (r: Result<SummarizeConfig, PlanError>)
        ensures
            match (spec_compile_seq(config.aggr@), spec_compile_seq(config.group@)) {
                (Some(ca), Some(cg)) => r matches Ok(c) && c.matches(*config),
                _ => r == Err::<SummarizeConfig, PlanError>(PlanError::InvalidExpression),
            },
    {
        let aggr = match convert_list(&config.aggr) {
            Ok(es) => es,
            Err(e) => {
                return Err(e);
            },
        };
        let group = match convert_list(&config.group) {
            Ok(es) => es,
            Err(e) => {
                return Err(e);
            },
        };
        Ok(SummarizeConfig { aggr, group })
    }
}

} // verus!
