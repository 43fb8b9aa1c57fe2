use spark_connect_rust::dataframe::DataFrame;
use spark_connect_rust::plan::{LoadPlan, NamedTableReadPlan, Plan, PlanNode, Project, SqlPlan};
use spark_connect_rust::wire::{ExprType, ReadType, RelType};

fn sql_frame(query: &str) -> DataFrame {
    DataFrame::new(PlanNode::Sql(SqlPlan { query: query.to_string() }))
}

#[test]
fn sql_plan_lowers_to_sql_relation() {
    let plan = SqlPlan { query: "SELECT 1".to_string() };
    let relation = plan.collect();
    match relation.rel_type {
        Some(RelType::Sql(sql)) => assert_eq!(sql.query, "SELECT 1"),
        other => panic!("expected a sql relation, got {:?}", other),
    }
}

#[test]
fn lowering_is_deterministic_across_deep_clones() {
    let plan = PlanNode::Project(Project {
        expressions: vec![],
        input: Box::new(PlanNode::NamedTable(NamedTableReadPlan {
            table_name: "employees".to_string(),
            options: vec![("header".to_string(), "true".to_string())],
        })),
    });
    let copy = plan.deep_clone();
    assert_eq!(plan.collect(), copy.collect());
    assert_eq!(plan.collect(), plan.collect());
}

#[test]
fn named_table_plan_lowers_with_options() {
    let plan = NamedTableReadPlan {
        table_name: "employees".to_string(),
        options: vec![("k".to_string(), "v".to_string())],
    };
    let relation = plan.collect();
    match relation.rel_type {
        Some(RelType::Read(read)) => {
            assert!(!read.is_streaming);
            match read.read_type {
                Some(ReadType::NamedTable(table)) => {
                    assert_eq!(table.unparsed_identifier, "employees");
                    assert_eq!(table.options, vec![("k".to_string(), "v".to_string())]);
                }
                other => panic!("expected a named table read, got {:?}", other),
            }
        }
        other => panic!("expected a read relation, got {:?}", other),
    }
}

#[test]
fn load_plan_lowers_with_paths_format_schema_options() {
    let plan = LoadPlan {
        paths: vec!["/data/employees.json".to_string()],
        options: vec![("header".to_string(), "true".to_string())],
        format: Some("json".to_string()),
        schema: Some("name STRING".to_string()),
    };
    let relation = plan.collect();
    match relation.rel_type {
        Some(RelType::Read(read)) => match read.read_type {
            Some(ReadType::DataSource(source)) => {
                assert_eq!(source.paths, vec!["/data/employees.json".to_string()]);
                assert_eq!(source.format, Some("json".to_string()));
                assert_eq!(source.schema, Some("name STRING".to_string()));
                assert_eq!(source.options, vec![("header".to_string(), "true".to_string())]);
            }
            other => panic!("expected a data source read, got {:?}", other),
        },
        other => panic!("expected a read relation, got {:?}", other),
    }
}

#[test]
fn select_uses_column_reference_constructor() {
    let frame = sql_frame("SELECT * FROM t");
    let selected = frame.select(vec!["x".to_string()]);
    match selected.plan {
        PlanNode::Project(project) => {
            assert_eq!(project.expressions.len(), 1);
            match &project.expressions[0].expr_type {
                Some(ExprType::UnresolvedAttribute(attr)) => {
                    assert_eq!(attr.unparsed_identifier, "x");
                }
                other => panic!("expected a column reference, got {:?}", other),
            }
        }
        other => panic!("expected a projection, got {:?}", other),
    }
}

#[test]
fn select_expr_uses_expression_text_constructor() {
    let frame = sql_frame("SELECT * FROM t");
    let selected = frame.select_expr(vec!["x".to_string()]);
    match selected.plan {
        PlanNode::Project(project) => {
            assert_eq!(project.expressions.len(), 1);
            match &project.expressions[0].expr_type {
                Some(ExprType::ExpressionString(text)) => {
                    assert_eq!(text.expression, "x");
                }
                other => panic!("expected expression text, got {:?}", other),
            }
        }
        other => panic!("expected a projection, got {:?}", other),
    }
}

#[test]
fn select_forms_lower_differently_on_identical_input() {
    let frame = sql_frame("SELECT * FROM t");
    let by_name = frame.select(vec!["x".to_string()]);
    let by_text = frame.select_expr(vec!["x".to_string()]);
    assert_ne!(by_name.plan.collect(), by_text.plan.collect());
}

#[test]
fn projection_does_not_mutate_the_original_frame() {
    let frame = sql_frame("SELECT * FROM t");
    let before = frame.plan.deep_clone();
    let _selected = frame.select(vec!["a".to_string(), "b".to_string()]);
    assert_eq!(frame.plan, before);
}

#[test]
fn empty_selection_projects_no_expressions() {
    let frame = sql_frame("SELECT * FROM t");
    let selected = frame.select(vec![]);
    match selected.plan {
        PlanNode::Project(project) => assert!(project.expressions.is_empty()),
        other => panic!("expected a projection, got {:?}", other),
    }
}

#[test]
fn stacked_projections_nest_in_the_lowered_relation() {
    let frame = sql_frame("SELECT * FROM t");
    let inner = frame.select(vec!["a".to_string(), "b".to_string()]);
    let outer = inner.select(vec!["a".to_string()]);
    let relation = outer.plan.collect();
    match relation.rel_type {
        Some(RelType::Project(outer_rel)) => {
            assert_eq!(outer_rel.expressions.len(), 1);
            match outer_rel.input.as_deref().and_then(|r| r.rel_type.as_ref()) {
                Some(RelType::Project(inner_rel)) => {
                    assert_eq!(inner_rel.expressions.len(), 2);
                    match inner_rel.input.as_deref().and_then(|r| r.rel_type.as_ref()) {
                        Some(RelType::Sql(sql)) => assert_eq!(sql.query, "SELECT * FROM t"),
                        other => panic!("expected the sql leaf, got {:?}", other),
                    }
                }
                other => panic!("expected the inner projection, got {:?}", other),
            }
        }
        other => panic!("expected the outer projection, got {:?}", other),
    }
}

#[test]
fn clone_plan_erases_each_variant_unchanged() {
    let sql = SqlPlan { query: "SELECT 1".to_string() };
    match sql.clone_plan() {
        PlanNode::Sql(copy) => assert_eq!(copy.query, "SELECT 1"),
        other => panic!("expected a sql node, got {:?}", other),
    }
    let load = LoadPlan {
        paths: vec!["/p".to_string()],
        options: vec![],
        format: None,
        schema: None,
    };
    match load.clone_plan() {
        PlanNode::Load(copy) => assert_eq!(copy.paths, vec!["/p".to_string()]),
        other => panic!("expected a load node, got {:?}", other),
    }
}
