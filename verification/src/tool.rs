use vstd::prelude::*;

use datafusion::dataframe::DataFrame;
use datafusion::error::DataFusionError;

use crate::actions;
use crate::actions::Data;
use crate::config::{
    AvroInputConfig, CsvInputConfig, CsvOutputConfig, FilterConfig, JoinConfig, JsonOutputConfig,
    MapConfig, ParquetInputConfig, ParquetOutputConfig, SelectConfig, SortConfig, SummarizeConfig,
    UnionConfig,
};
use crate::actions::spec_select_exprs;
use crate::engine::{
    aggregate_of, distinct_of, except_of, filter_of, intersect_of, join_of, lower_keys_spec,
    lower_seq_spec, lower_spec, select_of, sort_of, str_views, union_distinct_of, union_of,
};
use crate::errors::PlanError;
use crate::expr::{spec_compile, spec_compile_seq, view_expr_seq};
use crate::plans;
use crate::plans::{Export, Import};

verus! {

/// The executable unit a plan node compiles to: its resolved, validated
/// configuration, tagged by operator kind.
#[derive(Debug, Clone)]
pub enum Action {
    Difference,
    Distinct,
    Intersect,
    Filter(FilterConfig),
    Join(JoinConfig),
    Project(MapConfig),
    Select(SelectConfig),
    Sort(SortConfig),
    Summarize(SummarizeConfig),
    Union(UnionConfig),
    ImportCsv(CsvInputConfig),
    ImportAvro(AvroInputConfig),
    ImportParquet(ParquetInputConfig),
    ExportCsv(CsvOutputConfig),
    ExportJson(JsonOutputConfig),
    ExportParquet(ParquetOutputConfig),
}

/// The relation a synchronous action produces from its buffered inputs:
/// the engine operation the action's kind and configuration select,
/// applied to the delivered frame(s).
pub open spec fn spec_sync_result(a: Action, d: Data) -> DataFrame {
    match a {
        Action::Difference => except_of(d.left->0, d.right->0),
        Action::Distinct => distinct_of(d.left->0),
        Action::Intersect => intersect_of(d.left->0, d.right->0),
        Action::Filter(c) => filter_of(d.left->0, lower_spec(c.expr@)),
        Action::Join(c) => join_of(
            d.left->0,
            d.right->0,
            c.join_type,
            str_views(c.left_cols@),
            str_views(c.right_cols@),
        ),
        Action::Project(c) => select_of(d.left->0, lower_seq_spec(view_expr_seq(c.exprs@))),
        Action::Select(c) => select_of(d.left->0, spec_select_exprs(c.columns@, c.aliases@)),
        Action::Sort(c) => sort_of(d.left->0, lower_keys_spec(c.exprs@)),
        Action::Summarize(c) => aggregate_of(
            d.left->0,
            lower_seq_spec(view_expr_seq(c.group@)),
            lower_seq_spec(view_expr_seq(c.aggr@)),
        ),
        Action::Union(c) => if c.distinct {
            union_distinct_of(d.left->0, d.right->0)
        } else {
            union_of(d.left->0, d.right->0)
        },
        // imports and exports are I/O-bound and never run synchronously
        _ => d.left->0,
    }
}

impl Action {
    /// How many input relations this action consumes before it can run:
    /// none for a source, one for a unary transform or a sink, two for a
    /// join, union or set operation.
    pub open spec fn spec_frames(self) -> int {
        match self {
            Action::Distinct | Action::Filter(_) | Action::Project(_) | Action::Select(_)
                | Action::Sort(_) | Action::Summarize(_) => 1,
            Action::Difference | Action::Intersect | Action::Join(_) | Action::Union(_) => 2,
            Action::ImportCsv(_) | Action::ImportAvro(_) | Action::ImportParquet(_) => 0,
            Action::ExportCsv(_) | Action::ExportJson(_) | Action::ExportParquet(_) => 1,
        }
    }

    /// How many input relations this action consumes before it can run.
    pub fn frames(&self) -> (r: i8)
        ensures
            r as int == self.spec_frames(),
    {
        match self {
            Action::Distinct | Action::Filter(_) | Action::Project(_) | Action::Select(_)
                | Action::Sort(_) | Action::Summarize(_) => 1,
            Action::Difference | Action::Intersect | Action::Join(_) | Action::Union(_) => 2,
            Action::ImportCsv(_) | Action::ImportAvro(_) | Action::ImportParquet(_) => 0,
            Action::ExportCsv(_) | Action::ExportJson(_) | Action::ExportParquet(_) => 1,
        }
    }

    /// Whether this action is I/O-bound: true exactly for imports and
    /// exports, which are dispatched concurrently; in-memory transforms
    /// run on the calling control flow.
    pub open spec fn spec_is_async(self) -> bool {
        match self {
            Action::ImportCsv(_) | Action::ImportAvro(_) | Action::ImportParquet(_)
                | Action::ExportCsv(_) | Action::ExportJson(_) | Action::ExportParquet(_) => true,
            _ => false,
        }
    }

    /// Whether this action is I/O-bound.
    pub fn is_async(&self) -> (r: bool)
        ensures
            r == self.spec_is_async(),
    {
        match self {
            Action::Difference | Action::Distinct | Action::Intersect | Action::Filter(_)
                | Action::Join(_) | Action::Project(_) | Action::Select(_) | Action::Sort(_)
                | Action::Summarize(_) | Action::Union(_) => false,
            Action::ImportCsv(_) | Action::ImportAvro(_) | Action::ImportParquet(_)
                | Action::ExportCsv(_) | Action::ExportJson(_) | Action::ExportParquet(_) => true,
        }
    }

    /// The configuration is internally consistent (join key lists pair
    /// off).  `Tool::new` establishes this for every action it builds.
    pub open spec fn wf(self) -> bool {
        self matches Action::Join(c) ==> c.wf()
    }

    /// Run a synchronous (in-memory) action on its buffered inputs,
    /// consuming them: on engine success the result is exactly the engine
    /// operation this action selects, applied to those inputs.  Sources
    /// and sinks are I/O-bound and are not run here.
    pub fn run_sync(&self, data: Option<Data>) -> (r: Result<Option<DataFrame>, DataFusionError>)
        requires
            !self.spec_is_async(),
            self.wf(),
            data matches Some(d) && d.left is Some,
            self.spec_frames() == 2 ==> data->0.right is Some,
        ensures
            r matches Ok(o) ==> o == Some(spec_sync_result(*self, data->0)),
    {
        let mut d = data.unwrap();
        match self {
            Action::Difference => actions::difference(&mut d),
            Action::Distinct => actions::distinct(&mut d),
            Action::Intersect => actions::intersect(&mut d),
            Action::Filter(config) => actions::filter(&mut d, config),
            Action::Join(config) => actions::join(&mut d, config),
            Action::Project(config) => actions::project(&mut d, config),
            Action::Select(config) => actions::select(&mut d, config),
            Action::Sort(config) => actions::sort(&mut d, config),
            Action::Summarize(config) => actions::summarize(&mut d, config),
            Action::Union(config) => actions::union(&mut d, config),
            _ => vstd::pervasive::unreached(),
        }
    }
}

/// One node of the executable graph: its declared identifier and the
/// action it performs.
#[derive(Debug, Clone)]
pub struct Tool {
    pub id: String,
    pub action: Action,
}

/// The built action corresponds to the plan node: same operator kind, and
/// the node's configuration resolved and compiled as each configuration
/// type states.
pub open spec fn action_matches(plan: plans::Tool, a: Action) -> bool {
    match plan {
        plans::Tool::difference(_) => a is Difference,
        plans::Tool::distinct(_) => a is Distinct,
        plans::Tool::intersect(_) => a is Intersect,
        plans::Tool::filter(t) => a matches Action::Filter(c) && c.matches(t),
        plans::Tool::join(t) => a matches Action::Join(c) && c.matches(t) && c.wf(),
        plans::Tool::map(t) => a matches Action::Project(c) && c.matches(t),
        plans::Tool::select(t) => a matches Action::Select(c) && c.matches(t),
        plans::Tool::sort(t) => a matches Action::Sort(c) && c.matches(t),
        plans::Tool::summarize(t) => a matches Action::Summarize(c) && c.matches(t),
        plans::Tool::union(t) => a matches Action::Union(c) && c.matches(t),
        plans::Tool::import(format) => match format {
            Import::csv(t) => a matches Action::ImportCsv(c) && c.matches(t),
            Import::avro(t) => a matches Action::ImportAvro(c) && c.matches(t),
            Import::parquet(t) => a matches Action::ImportParquet(c) && c.matches(t),
        },
        plans::Tool::export(format) => match format {
            Export::csv(t) => a matches Action::ExportCsv(c) && c.matches(t),
            Export::json(t) => a matches Action::ExportJson(c) && c.matches(t),
            Export::parquet(t) => a matches Action::ExportParquet(c) && c.matches(t),
        },
    }
}

/// Why building a tool from this plan node fails, if it does: an
/// ill-formed expression somewhere in its configuration, or join key
/// lists of unequal length.
pub open spec fn tool_config_fails(plan: plans::Tool) -> bool {
    match plan {
        plans::Tool::filter(t) => spec_compile(t.expr) is None,
        plans::Tool::join(t) => t.lt@.len() != t.rt@.len(),
        plans::Tool::map(t) => spec_compile_seq(t.exprs@) is None,
        plans::Tool::sort(t) => SortConfig::some_key_fails(t),
        plans::Tool::summarize(t) => spec_compile_seq(t.aggr@) is None || spec_compile_seq(
            t.group@,
        ) is None,
        _ => false,
    }
}

impl Tool {
    /// Build the executable unit for one plan node, resolving and
    /// compiling its configuration.  Fails, with `InvalidExpression`,
    /// exactly where the node's configuration is ill-formed.
    pub fn new(plan: &plans::Tool) -> (r: Result<Tool, PlanError>)
        ensures
            match r {
                Ok(t) => t.id@ == plan.spec_id() && action_matches(*plan, t.action) && !tool_config_fails(*plan) && t.action.wf(),
                Err(e) => e == PlanError::InvalidExpression && tool_config_fails(*plan),
            },
    {
        let id = plan.id();
        let action = match plan {
            plans::Tool::difference(_) => Action::Difference,
            plans::Tool::distinct(_) => Action::Distinct,
            plans::Tool::intersect(_) => Action::Intersect,
            plans::Tool::filter(config) => Action::Filter(
                match FilterConfig::new(config) {
                    Ok(c) => c,
                    Err(e) => {
                        return Err(e);
                    },
                },
            ),
            plans::Tool::join(config) => Action::Join(
                match JoinConfig::new(config) {
                    Ok(c) => c,
                    Err(e) => {
                        return Err(e);
                    },
                },
            ),
            plans::Tool::map(config) => Action::Project(
                match MapConfig::new(config) {
                    Ok(c) => c,
                    Err(e) => {
                        return Err(e);
                    },
                },
            ),
            plans::Tool::select(config) => Action::Select(SelectConfig::new(config)),
            plans::Tool::sort(config) => Action::Sort(
                match SortConfig::new(config) {
                    Ok(c) => c,
                    Err(e) => {
                        return Err(e);
                    },
                },
            ),
            plans::Tool::summarize(config) => Action::Summarize(
                match SummarizeConfig::new(config) {
                    Ok(c) => c,
                    Err(e) => {
                        return Err(e);
                    },
                },
            ),
            plans::Tool::union(config) => Action::Union(UnionConfig::new(config)),
            plans::Tool::import(format) => match format {
                Import::csv(config) => Action::ImportCsv(CsvInputConfig::new(config)),
                Import::avro(config) => Action::ImportAvro(AvroInputConfig::new(config)),
                Import::parquet(config) => Action::ImportParquet(ParquetInputConfig::new(config)),
            },
            plans::Tool::export(format) => match format {
                Export::csv(config) => Action::ExportCsv(CsvOutputConfig::new(config)),
                Export::json(config) => Action::ExportJson(JsonOutputConfig::new(config)),
                Export::parquet(config) => Action::ExportParquet(ParquetOutputConfig::new(config)),
            },
        };
        Ok(Tool { action, id })
    }

    /// Whether this tool is I/O-bound.
    pub fn is_async(&self) -> (r: bool)
        ensures
            r == self.action.spec_is_async(),
    {
        self.action.is_async()
    }

    /// A node is ready exactly when the number of its populated input
    /// slots equals its arity: a source is always ready, a unary node
    /// needs its primary input, a binary node needs both.
    pub open spec fn spec_is_ready(self, data: Data) -> bool {
        ||| self.action.spec_frames() == 0
        ||| self.action.spec_frames() == 1 && data.left is Some
        ||| self.action.spec_frames() == 2 && data.left is Some && data.right is Some
    }

    /// Whether this tool's buffered inputs satisfy its arity.
    pub fn is_ready(&self, data: &Data) -> (r: bool)
        ensures
            r == self.spec_is_ready(*data),
    {
        let needed = self.action.frames();
        needed == 0 || needed == 1 && data.left.is_some() || needed == 2 && data.left.is_some()
            && data.right.is_some()
    }

    /// Run a synchronous (in-memory) tool on its buffered inputs: on
    /// engine success the result is exactly the engine operation its
    /// action selects, applied to those inputs.
    pub fn run_sync(&self, data: Option<Data>) -> (r: Result<Option<DataFrame>, DataFusionError>)
        requires
            !self.action.spec_is_async(),
            self.action.wf(),
            data matches Some(d) && d.left is Some,
            self.action.spec_frames() == 2 ==> data->0.right is Some,
        ensures
            r matches Ok(o) ==> o == Some(spec_sync_result(self.action, data->0)),
    {
        self.action.run_sync(data)
    }
}

} // verus!
