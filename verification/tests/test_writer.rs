use spark_connect_rust::dataframe::DataFrame;
use spark_connect_rust::plan::{Plan, PlanNode, SqlPlan};
use spark_connect_rust::protocol::{BucketBy, SaveMode, SaveType};

fn sql_frame(query: &str) -> DataFrame {
    DataFrame::new(PlanNode::Sql(SqlPlan { query: query.to_string() }))
}

#[test]
fn fresh_writer_has_unspecified_mode_and_nothing_configured() {
    let frame = sql_frame("SELECT * FROM t");
    let writer = frame.write();
    assert_eq!(writer.mode, SaveMode::Unspecified);
    assert!(writer.bucket_by.is_none());
    assert!(writer.format.is_none());
    assert!(writer.options.is_empty());
    assert!(writer.partitioning_columns.is_empty());
    assert!(writer.sort_column_names.is_empty());
    assert_eq!(writer.plan, frame.plan);
}

#[test]
fn writer_accumulates_the_write_specification() {
    let frame = sql_frame("SELECT * FROM t");
    let writer = frame
        .write()
        .format("csv".to_string())
        .mode(SaveMode::Overwrite)
        .options(vec![("header".to_string(), "true".to_string())])
        .bucket_by(BucketBy { bucket_column_names: vec!["name".to_string()], num_buckets: 4 });
    assert_eq!(writer.format, Some("csv".to_string()));
    assert_eq!(writer.mode, SaveMode::Overwrite);
    assert_eq!(writer.options, vec![("header".to_string(), "true".to_string())]);
    let bucketing = writer.bucket_by.as_ref().unwrap();
    assert_eq!(bucketing.bucket_column_names, vec!["name".to_string()]);
    assert_eq!(bucketing.num_buckets, 4);
}

#[test]
fn build_write_operation_lowers_the_plan_and_carries_the_spec() {
    let frame = sql_frame("SELECT name FROM employees");
    let lowered = frame.plan.collect();
    let operation = frame
        .write()
        .format("csv".to_string())
        .options(vec![("header".to_string(), "true".to_string())])
        .build_write_operation(Some(SaveType::Path("tmp/employees".to_string())));
    assert_eq!(operation.input, Some(lowered));
    assert_eq!(operation.source, Some("csv".to_string()));
    assert_eq!(operation.mode, SaveMode::Unspecified);
    assert_eq!(operation.options, vec![("header".to_string(), "true".to_string())]);
    assert!(operation.sort_column_names.is_empty());
    assert!(operation.partitioning_columns.is_empty());
    assert!(operation.bucket_by.is_none());
    assert_eq!(operation.save_type, Some(SaveType::Path("tmp/employees".to_string())));
}

#[test]
fn save_target_may_name_a_table_or_be_left_out() {
    let frame = sql_frame("SELECT 1");
    let operation = frame.write().build_write_operation(None);
    assert_eq!(operation.save_type, None);
    let frame = sql_frame("SELECT 1");
    let operation = frame.write().build_write_operation(Some(SaveType::Table {
        table_name: "employees".to_string(),
        save_method: spark_connect_rust::protocol::TableSaveMethod::SaveAsTable,
    }));
    match operation.save_type {
        Some(SaveType::Table { table_name, .. }) => assert_eq!(table_name, "employees"),
        other => panic!("expected a table target, got {:?}", other),
    }
}

#[test]
fn reader_configuration_lands_in_the_load_plan() {
    let reader = spark_connect_rust::dataframe::DataFrameReader::new()
        .format("json".to_string())
        .schema(Some("name STRING".to_string()))
        .options(vec![("multiline".to_string(), "true".to_string())]);
    let frame = reader.load(vec!["/data/employees.json".to_string()]);
    match frame.plan {
        PlanNode::Load(load) => {
            assert_eq!(load.format, Some("json".to_string()));
            assert_eq!(load.schema, Some("name STRING".to_string()));
            assert_eq!(load.options, vec![("multiline".to_string(), "true".to_string())]);
            assert_eq!(load.paths, vec!["/data/employees.json".to_string()]);
        }
        other => panic!("expected a load plan, got {:?}", other),
    }
}

#[test]
fn reader_table_keeps_only_the_options() {
    let reader = spark_connect_rust::dataframe::DataFrameReader::new()
        .options(vec![("k".to_string(), "v".to_string())]);
    let frame = reader.table("employees".to_string());
    match frame.plan {
        PlanNode::NamedTable(table) => {
            assert_eq!(table.table_name, "employees");
            assert_eq!(table.options, vec![("k".to_string(), "v".to_string())]);
        }
        other => panic!("expected a named table plan, got {:?}", other),
    }
}
