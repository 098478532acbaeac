use planflow::config::{
    CsvInputConfig, CsvOutputConfig, JoinConfig, ParquetOutputConfig, SortConfig, UnionConfig,
};
use planflow::errors::PlanError;
use planflow::expr::Expression;
use planflow::plans::{
    Export, ExportCsv, ExportParquet, Filter, Generic, Import, ImportCsv, Join, JoinType, Link,
    Plan, SchemaDataType, SchemaField, Select, Sort, SortExpression, Tool as PlanTool, Union,
    InputSide,
};
use planflow::tool::{Action, Tool};
use planflow::workflow::Workflow;

fn import_csv(id: &str, path: &str) -> PlanTool {
    PlanTool::import(Import::csv(ImportCsv {
        id: id.to_string(),
        path: path.to_string(),
        limit: None,
        header: Some(true),
        delimiter: None,
        schema: None,
        sql: None,
    }))
}

fn export_csv(id: &str, path: &str) -> PlanTool {
    PlanTool::export(Export::csv(ExportCsv {
        id: id.to_string(),
        path: path.to_string(),
        overwrite: Some(true),
    }))
}

fn filter_tool(id: &str, expr: Expression) -> PlanTool {
    PlanTool::filter(Filter { id: id.to_string(), expr })
}

fn link(src: &str, dst: &str, input: InputSide) -> Link {
    Link { src: src.to_string(), dst: dst.to_string(), input }
}

fn col_gt(name: &str, v: i64) -> Expression {
    Expression::gt(
        Box::new(Expression::col(name.to_string())),
        Box::new(Expression::i64(v)),
    )
}

#[test]
fn tool_arity_and_asyncness() {
    let t = Tool::new(&import_csv("in", "a.csv")).unwrap();
    assert!(t.is_async());
    assert!(matches!(t.action, Action::ImportCsv(_)));

    let t = Tool::new(&export_csv("out", "b.csv")).unwrap();
    assert!(t.is_async());

    let t = Tool::new(&filter_tool("f", col_gt("x", 5))).unwrap();
    assert!(!t.is_async());
    assert_eq!(t.id, "f".to_string());

    let t = Tool::new(&PlanTool::distinct(Generic { id: "d".to_string() })).unwrap();
    assert!(!t.is_async());

    let t = Tool::new(&PlanTool::union(Union { id: "u".to_string(), distinct: None })).unwrap();
    match t.action {
        Action::Union(c) => assert!(!c.distinct),
        _ => panic!("union tool did not build a union action"),
    }
}

#[test]
fn csv_input_defaults() {
    let c = CsvInputConfig::new(&ImportCsv {
        id: "in".to_string(),
        path: "data.csv".to_string(),
        limit: Some(10),
        header: None,
        delimiter: None,
        schema: None,
        sql: None,
    });
    assert_eq!(c.path, "data.csv".to_string());
    assert!(!c.header);
    assert_eq!(c.delimiter, b',');
    assert_eq!(c.limit, Some(10));
    assert!(c.sql.is_none());
    assert!(c.fields.is_none());
}

#[test]
fn csv_schema_fields_resolved() {
    // a declared field without a nullability flag resolves to nullable
    let c = CsvInputConfig::new(&ImportCsv {
        id: "in".to_string(),
        path: "data.csv".to_string(),
        limit: None,
        header: None,
        delimiter: None,
        schema: Some(vec![
            SchemaField {
                column: "a".to_string(),
                nullable: None,
                variant: SchemaDataType::i64,
            },
            SchemaField {
                column: "b".to_string(),
                nullable: Some(false),
                variant: SchemaDataType::utf8,
            },
        ]),
        sql: None,
    });
    let fields = c.fields.unwrap();
    assert_eq!(fields.len(), 2);
    assert_eq!(fields[0].column, "a");
    assert!(fields[0].nullable);
    assert!(matches!(fields[0].variant, SchemaDataType::i64));
    assert_eq!(fields[1].column, "b");
    assert!(!fields[1].nullable);
    assert!(matches!(fields[1].variant, SchemaDataType::utf8));
}

#[test]
fn output_defaults() {
    let c = CsvOutputConfig::new(&ExportCsv {
        id: "o".to_string(),
        path: "out.csv".to_string(),
        overwrite: None,
    });
    assert!(!c.overwrite);
    let c = ParquetOutputConfig::new(&ExportParquet {
        id: "o".to_string(),
        path: "out.parquet".to_string(),
        compress: None,
        overwrite: Some(true),
    });
    assert!(c.overwrite);
    assert!(c.compress.is_none());
}

#[test]
fn union_distinct_flag() {
    let c = UnionConfig::new(&Union { id: "u".to_string(), distinct: Some(true) });
    assert!(c.distinct);
}

#[test]
fn sort_key_defaults() {
    let c = SortConfig::new(&Sort {
        id: "s".to_string(),
        exprs: vec![SortExpression {
            asc: None,
            nulls_first: None,
            expr: Expression::col("x".to_string()),
        }],
    })
    .unwrap();
    assert_eq!(c.exprs.len(), 1);
    assert!(c.exprs[0].asc);
    assert!(!c.exprs[0].nulls_first);
}

#[test]
fn join_key_lists_must_pair_off() {
    let bad = Join {
        id: "j".to_string(),
        lt: vec!["a".to_string(), "b".to_string()],
        rt: vec!["a".to_string()],
        variant: JoinType::inner,
    };
    assert!(matches!(
        JoinConfig::new(&bad),
        Err(PlanError::InvalidExpression)
    ));
    assert!(matches!(
        Tool::new(&PlanTool::join(bad)),
        Err(PlanError::InvalidExpression)
    ));
}

#[test]
fn tool_rejects_empty_reduction() {
    let t = filter_tool("f", Expression::and(vec![]));
    assert!(matches!(Tool::new(&t), Err(PlanError::InvalidExpression)));
}

fn simple_plan() -> Plan {
    Plan {
        id: "p1".to_string(),
        name: "simple".to_string(),
        tools: vec![
            import_csv("in", "a.csv"),
            filter_tool("f", col_gt("x", 5)),
            export_csv("out", "b.csv"),
        ],
        links: vec![
            link("in", "f", InputSide::left),
            link("f", "out", InputSide::left),
        ],
    }
}

#[test]
fn workflow_builds_simple_plan() {
    let wf = Workflow::new(&simple_plan()).unwrap();
    assert_eq!(wf.id, "p1".to_string());
    assert_eq!(wf.name, "simple".to_string());
    assert_eq!(wf.tools.len(), 3);
    assert_eq!(wf.tools[0].id, "in".to_string());
    assert_eq!(wf.tools[2].id, "out".to_string());
}

#[test]
fn workflow_rejects_duplicate_ids() {
    let mut plan = simple_plan();
    plan.tools.push(filter_tool("f", col_gt("x", 1)));
    let e = Workflow::new(&plan).unwrap_err();
    match e {
        PlanError::DuplicateToolId(id) => assert_eq!(id, "f".to_string()),
        other => panic!("expected a duplicate id error, got {}", other.describe()),
    }
}

#[test]
fn workflow_rejects_unknown_endpoint() {
    let mut plan = simple_plan();
    plan.links.push(link("ghost", "out", InputSide::left));
    let e = Workflow::new(&plan).unwrap_err();
    match e {
        PlanError::UnknownEndpoint(id) => assert_eq!(id, "ghost".to_string()),
        other => panic!("expected an unknown endpoint error, got {}", other.describe()),
    }
}

#[test]
fn workflow_rejects_two_links_into_one_slot() {
    // two producers routed into the same (left) slot of the same node:
    // a malformed plan, rejected at build time
    let plan = Plan {
        id: "p2".to_string(),
        name: "bad".to_string(),
        tools: vec![
            import_csv("a", "a.csv"),
            import_csv("b", "b.csv"),
            filter_tool("f", col_gt("x", 5)),
        ],
        links: vec![
            link("a", "f", InputSide::left),
            link("b", "f", InputSide::left),
        ],
    };
    let e = Workflow::new(&plan).unwrap_err();
    assert!(matches!(e, PlanError::DuplicateSlot(_)));
}

#[test]
fn workflow_rejects_link_into_source() {
    let mut plan = simple_plan();
    plan.links.push(link("f", "in", InputSide::left));
    let e = Workflow::new(&plan).unwrap_err();
    assert!(matches!(e, PlanError::InvalidLink(_)));
}

#[test]
fn workflow_rejects_secondary_link_into_unary_node() {
    let mut plan = simple_plan();
    plan.links.push(link("in", "out", InputSide::right));
    let e = Workflow::new(&plan).unwrap_err();
    assert!(matches!(e, PlanError::InvalidLink(_)));
}

#[test]
fn error_descriptions() {
    assert_eq!(
        PlanError::InvalidExpression.describe(),
        "invalid expression"
    );
    let e = PlanError::DuplicateToolId("x".to_string());
    assert_eq!(e.describe(), "duplicate tool id");
    assert_eq!(e.subject().unwrap().as_str(), "x");
    assert_eq!(
        PlanError::PlanParseError("oops".to_string()).describe(),
        "malformed plan document"
    );
    assert_eq!(
        PlanError::UnknownToolKind("frobnicate".to_string()).describe(),
        "unknown tool kind"
    );
}

#[test]
fn waves_of_linear_plan() {
    let wf = Workflow::new(&simple_plan()).unwrap();
    let waves = wf.waves();
    assert_eq!(waves, vec![vec![0], vec![1], vec![2]]);
}

#[test]
fn waves_follow_longest_path() {
    // two sources joined, then exported: three waves, one per level,
    // independent sources side by side in the first
    let plan = Plan {
        id: "p3".to_string(),
        name: "diamond".to_string(),
        tools: vec![
            import_csv("a", "a.csv"),
            import_csv("b", "b.csv"),
            PlanTool::join(Join {
                id: "j".to_string(),
                lt: vec!["id".to_string()],
                rt: vec!["id".to_string()],
                variant: JoinType::inner,
            }),
            PlanTool::select(Select {
                id: "s".to_string(),
                columns: vec!["id".to_string()],
                aliases: vec![],
            }),
            export_csv("out", "o.csv"),
        ],
        links: vec![
            link("a", "j", InputSide::left),
            link("b", "j", InputSide::right),
            link("j", "s", InputSide::left),
            link("s", "out", InputSide::left),
        ],
    };
    let wf = Workflow::new(&plan).unwrap();
    let waves = wf.waves();
    assert_eq!(waves, vec![vec![0, 1], vec![2], vec![3], vec![4]]);
}

#[test]
fn waves_skip_unsatisfiable_nodes() {
    // a join fed on one side only never fires, and nothing downstream of
    // it does either
    let plan = Plan {
        id: "p4".to_string(),
        name: "dangling".to_string(),
        tools: vec![
            import_csv("a", "a.csv"),
            PlanTool::join(Join {
                id: "j".to_string(),
                lt: vec!["id".to_string()],
                rt: vec!["id".to_string()],
                variant: JoinType::inner,
            }),
            export_csv("out", "o.csv"),
        ],
        links: vec![
            link("a", "j", InputSide::left),
            link("j", "out", InputSide::left),
        ],
    };
    let wf = Workflow::new(&plan).unwrap();
    let waves = wf.waves();
    assert_eq!(waves, vec![vec![0]]);
}
