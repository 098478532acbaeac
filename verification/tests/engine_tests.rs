use datafusion::arrow::array::{Array, Float64Array, Int64Array, StringArray, StringViewArray};
use datafusion::arrow::record_batch::RecordBatch;
use datafusion::dataframe::DataFrame;
use datafusion::execution::context::SessionContext;

use planflow::actions::{self, Data};
use planflow::config::{FilterConfig, JoinConfig, MapConfig, SelectConfig, SortConfig, UnionConfig};
use planflow::expr::Expression;
use planflow::plans::{
    Export, ExportCsv, Filter, Import, ImportCsv, InputSide, Join, JoinType, Link, MapOp, Plan,
    SchemaDataType, Select, Sort, SortExpression, Tool as PlanTool,
};
use planflow::workflow::Workflow;

fn rt() -> tokio::runtime::Runtime {
    tokio::runtime::Builder::new_current_thread()
        .enable_all()
        .build()
        .unwrap()
}

fn sql_frame(rt: &tokio::runtime::Runtime, sql: &str) -> DataFrame {
    let ctx = SessionContext::new();
    rt.block_on(ctx.sql(sql)).unwrap()
}

fn collect(rt: &tokio::runtime::Runtime, df: DataFrame) -> Vec<RecordBatch> {
    rt.block_on(df.collect()).unwrap()
}

fn int_column(batches: &[RecordBatch], col: usize) -> Vec<i64> {
    let mut out = vec![];
    for b in batches {
        let a = b.column(col).as_any().downcast_ref::<Int64Array>().unwrap();
        for i in 0..a.len() {
            out.push(a.value(i));
        }
    }
    out
}

fn string_column(batches: &[RecordBatch], col: usize) -> Vec<String> {
    // the engine reads strings back from Parquet as a view array
    let mut out = vec![];
    for b in batches {
        let c = b.column(col);
        if let Some(a) = c.as_any().downcast_ref::<StringArray>() {
            for i in 0..a.len() {
                out.push(a.value(i).to_string());
            }
        } else {
            let a = c.as_any().downcast_ref::<StringViewArray>().unwrap();
            for i in 0..a.len() {
                out.push(a.value(i).to_string());
            }
        }
    }
    out
}

fn col_gt(name: &str, v: i64) -> Expression {
    Expression::gt(
        Box::new(Expression::col(name.to_string())),
        Box::new(Expression::i64(v)),
    )
}

#[test]
fn filter_keeps_matching_rows_and_column_order() {
    // ten rows, keep those with x > 5; column order is untouched
    let rt = rt();
    let df = sql_frame(
        &rt,
        "SELECT * FROM (VALUES (1, 'a'), (2, 'b'), (3, 'c'), (4, 'd'), (5, 'e'), \
         (6, 'f'), (7, 'g'), (8, 'h'), (9, 'i'), (10, 'j')) AS t(x, name)",
    );
    let config = FilterConfig::new(&Filter { id: "f".to_string(), expr: col_gt("x", 5) }).unwrap();
    let mut data = Data::empty();
    data.set(InputSide::left, df);
    let out = actions::filter(&mut data, &config).unwrap().unwrap();
    let names: Vec<String> = out.schema().fields().iter().map(|f| f.name().clone()).collect();
    assert_eq!(names, vec!["x".to_string(), "name".to_string()]);
    let batches = collect(&rt, out);
    let mut xs = int_column(&batches, 0);
    xs.sort();
    assert_eq!(xs, vec![6, 7, 8, 9, 10]);
}

#[test]
fn join_then_select_yields_matching_pairs() {
    // an inner join on the key pair, then a pick of two columns; the right
    // key carries its own name, since the engine keeps both key columns
    // and an unqualified reference to a repeated name is ambiguous
    let rt = rt();
    let left = sql_frame(
        &rt,
        "SELECT * FROM (VALUES (1, 'ann'), (2, 'bob'), (3, 'cey')) AS t(id, name)",
    );
    let right = sql_frame(&rt, "SELECT * FROM (VALUES (2, 20), (3, 30), (4, 40)) AS u(ident, age)");
    let jc = JoinConfig::new(&Join {
        id: "j".to_string(),
        lt: vec!["id".to_string()],
        rt: vec!["ident".to_string()],
        variant: JoinType::inner,
    })
    .unwrap();
    let mut data = Data::empty();
    data.set(InputSide::left, left);
    data.set(InputSide::right, right);
    let joined = actions::join(&mut data, &jc).unwrap().unwrap();

    let sc = SelectConfig::new(&Select {
        id: "s".to_string(),
        columns: vec!["id".to_string(), "name".to_string()],
        aliases: vec![],
    });
    let mut data = Data::empty();
    data.set(InputSide::left, joined);
    let out = actions::select(&mut data, &sc).unwrap().unwrap();
    let names: Vec<String> = out.schema().fields().iter().map(|f| f.name().clone()).collect();
    assert_eq!(names.len(), 2);
    let batches = collect(&rt, out);
    let mut ids = int_column(&batches, 0);
    ids.sort();
    assert_eq!(ids, vec![2, 3]);
    let mut who = string_column(&batches, 1);
    who.sort();
    assert_eq!(who, vec!["bob".to_string(), "cey".to_string()]);
}

#[test]
fn select_applies_aliases() {
    let rt = rt();
    let df = sql_frame(&rt, "SELECT * FROM (VALUES (1, 'a')) AS t(x, name)");
    let sc = SelectConfig::new(&Select {
        id: "s".to_string(),
        columns: vec!["x".to_string()],
        aliases: vec![("x".to_string(), "renamed".to_string())],
    });
    let mut data = Data::empty();
    data.set(InputSide::left, df);
    let out = actions::select(&mut data, &sc).unwrap().unwrap();
    let names: Vec<String> = out.schema().fields().iter().map(|f| f.name().clone()).collect();
    assert_eq!(names, vec!["renamed".to_string()]);
}

#[test]
fn union_concatenates_and_distinct_deduplicates() {
    let rt = rt();
    let a = sql_frame(&rt, "SELECT * FROM (VALUES (1), (2)) AS t(x)");
    let b = sql_frame(&rt, "SELECT * FROM (VALUES (2), (3)) AS t(x)");
    let mut data = Data::empty();
    data.set(InputSide::left, a);
    data.set(InputSide::right, b);
    let out = actions::union(&mut data, &UnionConfig { distinct: false }).unwrap().unwrap();
    let mut xs = int_column(&collect(&rt, out), 0);
    xs.sort();
    assert_eq!(xs, vec![1, 2, 2, 3]);

    let a = sql_frame(&rt, "SELECT * FROM (VALUES (1), (2)) AS t(x)");
    let b = sql_frame(&rt, "SELECT * FROM (VALUES (2), (3)) AS t(x)");
    let mut data = Data::empty();
    data.set(InputSide::left, a);
    data.set(InputSide::right, b);
    let out = actions::union(&mut data, &UnionConfig { distinct: true }).unwrap().unwrap();
    let mut xs = int_column(&collect(&rt, out), 0);
    xs.sort();
    assert_eq!(xs, vec![1, 2, 3]);
}

#[test]
fn set_operations() {
    let rt = rt();
    let a = sql_frame(&rt, "SELECT * FROM (VALUES (1), (2), (3)) AS t(x)");
    let b = sql_frame(&rt, "SELECT * FROM (VALUES (2), (3), (4)) AS t(x)");
    let mut data = Data::empty();
    data.set(InputSide::left, a);
    data.set(InputSide::right, b);
    let out = actions::difference(&mut data).unwrap().unwrap();
    let mut xs = int_column(&collect(&rt, out), 0);
    xs.sort();
    assert_eq!(xs, vec![1]);

    let a = sql_frame(&rt, "SELECT * FROM (VALUES (1), (2), (3)) AS t(x)");
    let b = sql_frame(&rt, "SELECT * FROM (VALUES (2), (3), (4)) AS t(x)");
    let mut data = Data::empty();
    data.set(InputSide::left, a);
    data.set(InputSide::right, b);
    let out = actions::intersect(&mut data).unwrap().unwrap();
    let mut xs = int_column(&collect(&rt, out), 0);
    xs.sort();
    assert_eq!(xs, vec![2, 3]);

    let a = sql_frame(&rt, "SELECT * FROM (VALUES (1), (1), (2)) AS t(x)");
    let mut data = Data::empty();
    data.set(InputSide::left, a);
    let out = actions::distinct(&mut data).unwrap().unwrap();
    let mut xs = int_column(&collect(&rt, out), 0);
    xs.sort();
    assert_eq!(xs, vec![1, 2]);
}

#[test]
fn sort_orders_rows() {
    let rt = rt();
    let df = sql_frame(&rt, "SELECT * FROM (VALUES (3), (1), (2)) AS t(x)");
    let sc = SortConfig::new(&Sort {
        id: "s".to_string(),
        exprs: vec![SortExpression {
            asc: Some(false),
            nulls_first: None,
            expr: Expression::col("x".to_string()),
        }],
    })
    .unwrap();
    let mut data = Data::empty();
    data.set(InputSide::left, df);
    let out = actions::sort(&mut data, &sc).unwrap().unwrap();
    let xs = int_column(&collect(&rt, out), 0);
    assert_eq!(xs, vec![3, 2, 1]);
}

#[test]
fn run_delivers_wave_by_wave() {
    // drive the scheduler by hand, standing in for the outer executor:
    // one source, one filter, one sink, three waves
    let rt = rt();
    let plan = Plan {
        id: "p".to_string(),
        name: "run".to_string(),
        tools: vec![
            PlanTool::import(Import::csv(ImportCsv {
                id: "in".to_string(),
                path: "rows.csv".to_string(),
                limit: None,
                header: Some(true),
                delimiter: None,
                schema: None,
                sql: None,
            })),
            PlanTool::filter(Filter { id: "f".to_string(), expr: col_gt("x", 5) }),
            PlanTool::export(Export::csv(ExportCsv {
                id: "out".to_string(),
                path: "kept.csv".to_string(),
                overwrite: Some(true),
            })),
        ],
        links: vec![
            Link { src: "in".to_string(), dst: "f".to_string(), input: InputSide::left },
            Link { src: "f".to_string(), dst: "out".to_string(), input: InputSide::left },
        ],
    };
    let wf = Workflow::new(&plan).unwrap();
    let mut run = wf.start();

    // wave 0: the source fires; its read is the executor's business, so
    // hand its result in
    let batch = run.take_batch(&wf);
    assert_eq!(batch.len(), 1);
    assert_eq!(batch[0].0, 0);
    let df = sql_frame(
        &rt,
        "SELECT * FROM (VALUES (1), (4), (6), (8), (10)) AS t(x)",
    );
    run.deliver(&wf, 0, Some(df));
    assert!(!run.is_done());

    // wave 1: the filter runs in-process
    let mut batch = run.take_batch(&wf);
    assert_eq!(batch.len(), 1);
    assert_eq!(batch[0].0, 1);
    let (ix, data) = batch.pop().unwrap();
    let result = wf.tools[ix].run_sync(Some(data)).unwrap();
    run.deliver(&wf, ix, result);

    // wave 2: the sink consumes; in place of its write, check the rows
    let mut batch = run.take_batch(&wf);
    assert_eq!(batch.len(), 1);
    assert_eq!(batch[0].0, 2);
    let (ix, data) = batch.pop().unwrap();
    let kept = data.left.unwrap();
    let mut xs = int_column(&collect(&rt, kept), 0);
    xs.sort();
    assert_eq!(xs, vec![6, 8, 10]);
    run.deliver(&wf, ix, None);

    assert!(run.is_done());
    let batch = run.take_batch(&wf);
    assert!(batch.is_empty());
}

#[test]
fn fan_out_hands_each_consumer_the_same_relation() {
    // one source fanned out to two filters: each consumer's handle is a
    // clone of the same relation, so their views agree with the source
    let rt = rt();
    let plan = Plan {
        id: "p".to_string(),
        name: "fanout".to_string(),
        tools: vec![
            PlanTool::import(Import::csv(ImportCsv {
                id: "in".to_string(),
                path: "rows.csv".to_string(),
                limit: None,
                header: Some(true),
                delimiter: None,
                schema: None,
                sql: None,
            })),
            PlanTool::filter(Filter { id: "low".to_string(), expr: col_gt("x", 0) }),
            PlanTool::filter(Filter { id: "high".to_string(), expr: col_gt("x", 5) }),
        ],
        links: vec![
            Link { src: "in".to_string(), dst: "low".to_string(), input: InputSide::left },
            Link { src: "in".to_string(), dst: "high".to_string(), input: InputSide::left },
        ],
    };
    let wf = Workflow::new(&plan).unwrap();
    let mut run = wf.start();
    let batch = run.take_batch(&wf);
    assert_eq!(batch.len(), 1);
    let df = sql_frame(&rt, "SELECT * FROM (VALUES (2), (4), (6), (8)) AS t(x)");
    run.deliver(&wf, 0, Some(df));

    let batch = run.take_batch(&wf);
    let mut fired: Vec<usize> = batch.iter().map(|(ix, _)| *ix).collect();
    fired.sort();
    assert_eq!(fired, vec![1, 2]);
    let mut rows = vec![];
    for (ix, data) in batch {
        let out = wf.tools[ix].run_sync(Some(data)).unwrap().unwrap();
        let mut xs = int_column(&collect(&rt, out), 0);
        xs.sort();
        rows.push((ix, xs));
        run.deliver(&wf, ix, None);
    }
    rows.sort();
    assert_eq!(rows[0], (1, vec![2, 4, 6, 8]));
    assert_eq!(rows[1], (2, vec![6, 8]));
    assert!(run.is_done());
}

#[test]
fn parquet_round_trip_preserves_rows() {
    // the engine boundary this crate leans on: a relation written to a
    // Parquet sink and read back through the matching source is the same
    // relation, row for row
    let rt = rt();
    let stamp = std::time::SystemTime::now()
        .duration_since(std::time::UNIX_EPOCH)
        .unwrap()
        .as_nanos();
    let dir = format!("/tmp/planflow_roundtrip_{stamp}");
    let df = sql_frame(&rt, "SELECT * FROM (VALUES (1, 'a'), (2, 'b'), (3, 'c')) AS t(x, name)");
    rt.block_on(df.write_parquet(
        &dir,
        datafusion::dataframe::DataFrameWriteOptions::new(),
        None,
    ))
    .unwrap();

    let ctx = SessionContext::new();
    let back = rt
        .block_on(ctx.read_parquet(
            &dir,
            datafusion::execution::options::ParquetReadOptions::default(),
        ))
        .unwrap();
    let names: Vec<String> = back.schema().fields().iter().map(|f| f.name().clone()).collect();
    assert_eq!(names, vec!["x".to_string(), "name".to_string()]);
    let batches = collect(&rt, back);
    let mut xs = int_column(&batches, 0);
    xs.sort();
    assert_eq!(xs, vec![1, 2, 3]);
    let mut who = string_column(&batches, 1);
    who.sort();
    assert_eq!(who, vec!["a".to_string(), "b".to_string(), "c".to_string()]);
}

#[test]
fn float_literals_and_casts_reach_the_engine() {
    // a float literal travels as decimal text and is parsed back at the
    // engine boundary; a cast becomes the engine's try_cast
    let rt = rt();
    let df = sql_frame(&rt, "SELECT * FROM (VALUES (1.5), (2.5), (3.5)) AS t(x)");
    let config = FilterConfig::new(&Filter {
        id: "f".to_string(),
        expr: Expression::gt(
            Box::new(Expression::col("x".to_string())),
            Box::new(Expression::float64("2.6".to_string())),
        ),
    })
    .unwrap();
    let mut data = Data::empty();
    data.set(InputSide::left, df);
    let out = actions::filter(&mut data, &config).unwrap().unwrap();
    let batches = collect(&rt, out);
    let mut xs = vec![];
    for b in &batches {
        let a = b.column(0).as_any().downcast_ref::<Float64Array>().unwrap();
        for i in 0..a.len() {
            xs.push(a.value(i));
        }
    }
    assert_eq!(xs, vec![3.5]);

    let df = sql_frame(&rt, "SELECT * FROM (VALUES (1.25), (2.75)) AS t(x)");
    let mc = MapConfig::new(&MapOp {
        id: "m".to_string(),
        exprs: vec![Expression::cast(
            Box::new(Expression::col("x".to_string())),
            SchemaDataType::i64,
        )],
    })
    .unwrap();
    let mut data = Data::empty();
    data.set(InputSide::left, df);
    let out = actions::project(&mut data, &mc).unwrap().unwrap();
    let batches = collect(&rt, out);
    let got = int_column(&batches, 0);
    assert_eq!(got.len(), 2);
}
