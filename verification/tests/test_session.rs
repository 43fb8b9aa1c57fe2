use std::sync::Arc;

use arrow_array::StringArray;
use arrow_ipc::writer::StreamWriter;
use arrow_schema::{DataType as ArrowDataType, Field, Schema};
use spark_connect_rust::error::SparkError;
use spark_connect_rust::plan::{Plan, PlanNode, SqlPlan};
use spark_connect_rust::protocol::{
    ArrowBatch, Context, DataType, ExecutePlanResponse, Extension, Metrics, OpType, ResponseType,
};
use spark_connect_rust::session::{Collector, SessionCore};

fn names_stream(names: &[&str]) -> Vec<u8> {
    let schema = Arc::new(Schema::new(vec![Field::new("name", ArrowDataType::Utf8, false)]));
    let batch = arrow_array::RecordBatch::try_new(
        schema.clone(),
        vec![Arc::new(StringArray::from(names.to_vec()))],
    )
    .unwrap();
    let mut buffer: Vec<u8> = Vec::new();
    {
        let mut writer = StreamWriter::try_new(&mut buffer, &schema).unwrap();
        writer.write(&batch).unwrap();
        writer.finish().unwrap();
    }
    buffer
}

fn empty_response() -> ExecutePlanResponse {
    ExecutePlanResponse { schema: None, metrics: None, response_type: None }
}

#[test]
fn stream_without_payload_yields_empty_response_error() {
    let mut collector = Collector::new();
    let schema_only = ExecutePlanResponse {
        schema: Some(DataType { description: "name STRING".to_string() }),
        metrics: None,
        response_type: None,
    };
    let metrics_only = ExecutePlanResponse {
        schema: None,
        metrics: Some(Metrics { description: "rows=4".to_string() }),
        response_type: None,
    };
    collector.process(&schema_only).unwrap();
    collector.process(&metrics_only).unwrap();
    collector.process(&empty_response()).unwrap();
    let result = collector.records();
    assert!(matches!(result, Err(SparkError::EmptyResponse)));
}

#[test]
fn stream_with_payload_materializes_batches() {
    let mut collector = Collector::new();
    let payload = ExecutePlanResponse {
        schema: None,
        metrics: None,
        response_type: Some(ResponseType::ArrowBatch(ArrowBatch {
            row_count: 2,
            data: names_stream(&["Michael", "Andy"]),
        })),
    };
    collector.process(&payload).unwrap();
    let rows = collector.records().unwrap();
    assert_eq!(rows.len(), 1);
    assert_eq!(
        rows[0].column_strings(0).unwrap(),
        vec!["Michael".to_string(), "Andy".to_string()]
    );
}

#[test]
fn later_messages_supersede_earlier_ones() {
    let mut collector = Collector::new();
    let first = ExecutePlanResponse {
        schema: Some(DataType { description: "first".to_string() }),
        metrics: Some(Metrics { description: "m1".to_string() }),
        response_type: Some(ResponseType::ArrowBatch(ArrowBatch {
            row_count: 1,
            data: names_stream(&["Michael"]),
        })),
    };
    let second = ExecutePlanResponse {
        schema: Some(DataType { description: "second".to_string() }),
        metrics: Some(Metrics { description: "m2".to_string() }),
        response_type: Some(ResponseType::ArrowBatch(ArrowBatch {
            row_count: 1,
            data: names_stream(&["Berta"]),
        })),
    };
    collector.process(&first).unwrap();
    collector.process(&second).unwrap();
    assert_eq!(collector.schema.as_ref().unwrap().description, "second");
    assert_eq!(collector.metrics.as_ref().unwrap().description, "m2");
    let rows = collector.records().unwrap();
    assert_eq!(rows[0].column_strings(0).unwrap(), vec!["Berta".to_string()]);
}

#[test]
fn unrecognized_response_variant_fails_explicitly() {
    let mut collector = Collector::new();
    let unsupported = ExecutePlanResponse {
        schema: Some(DataType { description: "kept".to_string() }),
        metrics: None,
        response_type: Some(ResponseType::Unsupported("sql command result".to_string())),
    };
    let result = collector.process(&unsupported);
    match result {
        Err(SparkError::NotImplementedYet(e)) => assert_eq!(e.0, "sql command result"),
        other => panic!("expected a not-implemented-yet error, got {:?}", other),
    }
    assert!(collector.data.is_none());
    assert_eq!(collector.schema.as_ref().unwrap().description, "kept");
}

#[test]
fn selecting_name_over_a_four_row_fixture_returns_the_four_names_in_order() {
    // Client side of one whole call: build the projection, check what goes
    // on the wire, then fold the reply a server would stream back for the
    // name column of a four-row fixture with columns name and salary.
    let frame = spark_connect_rust::dataframe::DataFrame::new(PlanNode::Sql(SqlPlan {
        query: "SELECT * FROM employees".to_string(),
    }));
    let selected = frame.select(vec!["name".to_string()]);
    let session = SessionCore::new(None);
    let request = session.build_request(OpType::Root(selected.plan.collect()));
    assert_eq!(request.session_id, session.session_id);
    assert!(request.plan.is_some());

    let mut collector = Collector::new();
    let reply = ExecutePlanResponse {
        schema: Some(DataType { description: "name STRING".to_string() }),
        metrics: Some(Metrics { description: "rows=4".to_string() }),
        response_type: Some(ResponseType::ArrowBatch(ArrowBatch {
            row_count: 4,
            data: names_stream(&["Michael", "Andy", "Justin", "Berta"]),
        })),
    };
    collector.process(&reply).unwrap();
    let rows = collector.records().unwrap();
    assert_eq!(rows.len(), 1);
    assert_eq!(rows[0].num_columns(), 1);
    assert_eq!(
        rows[0].column_strings(0).unwrap(),
        vec![
            "Michael".to_string(),
            "Andy".to_string(),
            "Justin".to_string(),
            "Berta".to_string(),
        ]
    );
}

#[test]
fn session_identifier_is_in_canonical_hyphenated_form() {
    let session = SessionCore::new(None);
    let id: Vec<char> = session.session_id.chars().collect();
    assert_eq!(id.len(), 36);
    for (i, c) in id.iter().enumerate() {
        if i == 8 || i == 13 || i == 18 || i == 23 {
            assert_eq!(*c, '-');
        } else {
            assert!(c.is_ascii_hexdigit() && !c.is_ascii_uppercase());
        }
    }
}

#[test]
fn session_identifier_is_generated_once_and_stable() {
    let session = SessionCore::new(None);
    assert_eq!(session.session_id.len(), 36);
    assert_eq!(session.session_id, session.session_id.clone());
    let other = SessionCore::new(None);
    assert_eq!(other.session_id.len(), 36);
    assert_ne!(session.session_id, other.session_id);
}

#[test]
fn request_carries_session_identity_and_context() {
    let context = Context {
        user_id: "u1".to_string(),
        user_name: "Ada".to_string(),
        extensions: vec![Extension { type_url: "example/tag".to_string(), value: vec![1, 2] }],
        client_type: "rust".to_string(),
    };
    let session = SessionCore::new(Some(context));
    let plan = PlanNode::Sql(SqlPlan { query: "SELECT 1".to_string() });
    let request = session.build_request(OpType::Root(plan.collect()));
    assert_eq!(request.session_id, session.session_id);
    assert_eq!(request.client_type, Some("rust".to_string()));
    let user_context = request.user_context.unwrap();
    assert_eq!(user_context.user_id, "u1");
    assert_eq!(user_context.user_name, "Ada");
    assert_eq!(user_context.extensions.len(), 1);
    assert_eq!(user_context.extensions[0].type_url, "example/tag");
    assert_eq!(user_context.extensions[0].value, vec![1, 2]);
    assert!(request.plan.is_some());
}

#[test]
fn request_without_context_carries_neither_client_type_nor_user() {
    let session = SessionCore::new(None);
    let plan = PlanNode::Sql(SqlPlan { query: "SELECT 1".to_string() });
    let request = session.build_request(OpType::Root(plan.collect()));
    assert_eq!(request.client_type, None);
    assert!(request.user_context.is_none());
}
