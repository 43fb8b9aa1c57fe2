//! Wire-level request and response messages of the execution protocol:
//! the execute request that carries a lowered plan or a command, and the
//! streamed response elements the session layer folds into one result.
use crate::wire::{Relation, RelationV};
use vstd::prelude::*;

verus! {

/// One opaque extension payload attached to a user context; carries a
/// protobuf-style type tag and encoded value.
#[derive(Clone, Debug, PartialEq)]
pub struct Extension {
    pub type_url: String,
    pub value: Vec<u8>,
}

/// Ghost model of an `Extension`.
pub struct ExtensionV {
    pub type_url: Seq<char>,
    pub value: Seq<u8>,
}

impl View for Extension {
    type V = ExtensionV;

    open spec fn view(&self) -> ExtensionV {
        ExtensionV { type_url: self.type_url@, value: self.value@ }
    }
}

impl DeepView for Extension {
    type V = ExtensionV;

    open spec fn deep_view(&self) -> ExtensionV {
        self.view()
    }
}

/// The caller-supplied session descriptor: who is running the session and
/// which client type to report to the server.
#[derive(Clone, Debug, PartialEq)]
pub struct Context {
    pub user_id: String,
    pub user_name: String,
    pub extensions: Vec<Extension>,
    pub client_type: String,
}

/// Ghost model of a `Context`.
pub struct ContextV {
    pub user_id: Seq<char>,
    pub user_name: Seq<char>,
    pub extensions: Seq<ExtensionV>,
    pub client_type: Seq<char>,
}

impl View for Context {
    type V = ContextV;

    open spec fn view(&self) -> ContextV {
        ContextV {
            user_id: self.user_id@,
            user_name: self.user_name@,
            extensions: self.extensions.deep_view(),
            client_type: self.client_type@,
        }
    }
}

impl DeepView for Context {
    type V = ContextV;

    open spec fn deep_view(&self) -> ContextV {
        self.view()
    }
}

/// Wire form of the user context stamped onto a request.
#[derive(Clone, Debug, PartialEq)]
pub struct UserContext {
    pub user_id: String,
    pub user_name: String,
    pub extensions: Vec<Extension>,
}

/// Ghost model of a `UserContext`.
pub struct UserContextV {
    pub user_id: Seq<char>,
    pub user_name: Seq<char>,
    pub extensions: Seq<ExtensionV>,
}

impl View for UserContext {
    type V = UserContextV;

    open spec fn view(&self) -> UserContextV {
        UserContextV {
            user_id: self.user_id@,
            user_name: self.user_name@,
            extensions: self.extensions.deep_view(),
        }
    }
}

impl DeepView for UserContext {
    type V = UserContextV;

    open spec fn deep_view(&self) -> UserContextV {
        self.view()
    }
}

/// Policy governing write-target conflicts.
#[derive(Clone, Copy, Debug, PartialEq, Eq, Structural)]
pub enum SaveMode {
    Unspecified,
    Append,
    Overwrite,
    ErrorIfExists,
    Ignore,
}

impl Default for SaveMode {
    /// A freshly built writer leaves the mode unspecified; the server then
    /// applies its own default policy, error-if-exists.
    fn default() -> (r: SaveMode)
        ensures
            r == SaveMode::Unspecified,
    {
        SaveMode::Unspecified
    }
}

/// How a save-to-table call treats the target table.
#[derive(Clone, Copy, Debug, PartialEq, Eq, Structural)]
pub enum TableSaveMethod {
    Unspecified,
    SaveAsTable,
    InsertInto,
}

/// Where a write lands: a storage path, a table, or neither for
/// connector-specific targets.
#[derive(Clone, Debug, PartialEq)]
pub enum SaveType {
    Path(String),
    Table { table_name: String, save_method: TableSaveMethod },
}

/// Ghost model of a `SaveType`.
pub enum SaveTypeV {
    Path(Seq<char>),
    Table { table_name: Seq<char>, save_method: TableSaveMethod },
}

impl View for SaveType {
    type V = SaveTypeV;

    open spec fn view(&self) -> SaveTypeV {
        match self {
            SaveType::Path(p) => SaveTypeV::Path(p@),
            SaveType::Table { table_name, save_method } => SaveTypeV::Table {
                table_name: table_name@,
                save_method: *save_method,
            },
        }
    }
}

impl DeepView for SaveType {
    type V = SaveTypeV;

    open spec fn deep_view(&self) -> SaveTypeV {
        self.view()
    }
}

/// A bucketing specification for a write.
#[derive(Clone, Debug, PartialEq)]
pub struct BucketBy {
    pub bucket_column_names: Vec<String>,
    pub num_buckets: i32,
}

/// Ghost model of a `BucketBy`.
pub struct BucketByV {
    pub bucket_column_names: Seq<Seq<char>>,
    pub num_buckets: int,
}

impl View for BucketBy {
    type V = BucketByV;

    open spec fn view(&self) -> BucketByV {
        BucketByV {
            bucket_column_names: self.bucket_column_names.deep_view(),
            num_buckets: self.num_buckets as int,
        }
    }
}

impl DeepView for BucketBy {
    type V = BucketByV;

    open spec fn deep_view(&self) -> BucketByV {
        self.view()
    }
}

/// Wire form of a side-effecting write: the lowered input relation plus
/// the full write specification.
#[derive(Debug, PartialEq)]
pub struct WriteOperation {
    pub input: Option<Relation>,
    pub source: Option<String>,
    pub mode: SaveMode,
    pub sort_column_names: Vec<String>,
    pub partitioning_columns: Vec<String>,
    pub bucket_by: Option<BucketBy>,
    pub options: Vec<(String, String)>,
    pub save_type: Option<SaveType>,
}

/// Ghost model of a `WriteOperation`.
pub struct WriteOperationV {
    pub input: Option<RelationV>,
    pub source: Option<Seq<char>>,
    pub mode: SaveMode,
    pub sort_column_names: Seq<Seq<char>>,
    pub partitioning_columns: Seq<Seq<char>>,
    pub bucket_by: Option<BucketByV>,
    pub options: Seq<(Seq<char>, Seq<char>)>,
    pub save_type: Option<SaveTypeV>,
}

impl View for WriteOperation {
    type V = WriteOperationV;

    open spec fn view(&self) -> WriteOperationV {
        WriteOperationV {
            input: match self.input {
                Some(r) => Some(r.deep_view()),
                None => None,
            },
            source: self.source.deep_view(),
            mode: self.mode,
            sort_column_names: self.sort_column_names.deep_view(),
            partitioning_columns: self.partitioning_columns.deep_view(),
            bucket_by: self.bucket_by.deep_view(),
            options: self.options.deep_view(),
            save_type: self.save_type.deep_view(),
        }
    }
}

impl DeepView for WriteOperation {
    type V = WriteOperationV;

    open spec fn deep_view(&self) -> WriteOperationV {
        self.view()
    }
}

/// The closed set of commands this client can submit.
#[derive(Debug, PartialEq)]
pub enum CommandType {
    WriteOperation(WriteOperation),
}

/// Ghost model of a `CommandType`.
pub enum CommandTypeV {
    WriteOperation(WriteOperationV),
}

impl View for CommandType {
    type V = CommandTypeV;

    open spec fn view(&self) -> CommandTypeV {
        match self {
            CommandType::WriteOperation(w) => CommandTypeV::WriteOperation(w@),
        }
    }
}

impl DeepView for CommandType {
    type V = CommandTypeV;

    open spec fn deep_view(&self) -> CommandTypeV {
        self.view()
    }
}

/// Wire form of a side-effecting command.
#[derive(Debug, PartialEq)]
pub struct Command {
    pub command_type: Option<CommandType>,
}

/// Ghost model of a `Command`.
pub struct CommandV {
    pub command_type: Option<CommandTypeV>,
}

impl Command {
    /// Wraps a write specification as the command submitted for a
    /// side-effecting operation.
    pub fn for_write_operation(write_operation: WriteOperation) -> (c: Command)
        ensures
            c@ == (CommandV {
                command_type: Some(CommandTypeV::WriteOperation(write_operation@)),
            }),
    {
        Command { command_type: Some(CommandType::WriteOperation(write_operation)) }
    }
}

impl View for Command {
    type V = CommandV;

    open spec fn view(&self) -> CommandV {
        CommandV { command_type: self.command_type.deep_view() }
    }
}

impl DeepView for Command {
    type V = CommandV;

    open spec fn deep_view(&self) -> CommandV {
        self.view()
    }
}

/// What one execute request asks for: a data-returning root relation or a
/// side-effecting command.
#[derive(Debug, PartialEq)]
pub enum OpType {
    Root(Relation),
    Command(Command),
}

/// Ghost model of an `OpType`.
pub enum OpTypeV {
    Root(RelationV),
    Command(CommandV),
}

impl View for OpType {
    type V = OpTypeV;

    open spec fn view(&self) -> OpTypeV {
        match self {
            OpType::Root(r) => OpTypeV::Root(r.deep_view()),
            OpType::Command(c) => OpTypeV::Command(c.deep_view()),
        }
    }
}

impl DeepView for OpType {
    type V = OpTypeV;

    open spec fn deep_view(&self) -> OpTypeV {
        self.view()
    }
}

/// Wire envelope for the plan carried by one execute request.
#[derive(Debug, PartialEq)]
pub struct PlanMessage {
    pub op_type: Option<OpType>,
}

/// Ghost model of a `PlanMessage`.
pub struct PlanMessageV {
    pub op_type: Option<OpTypeV>,
}

impl View for PlanMessage {
    type V = PlanMessageV;

    open spec fn view(&self) -> PlanMessageV {
        PlanMessageV { op_type: self.op_type.deep_view() }
    }
}

impl DeepView for PlanMessage {
    type V = PlanMessageV;

    open spec fn deep_view(&self) -> PlanMessageV {
        self.view()
    }
}

/// One execute request: the session identity, the optional caller
/// descriptor, and the plan to run.
#[derive(Debug, PartialEq)]
pub struct ExecutePlanRequest {
    pub session_id: String,
    pub client_type: Option<String>,
    pub user_context: Option<UserContext>,
    pub plan: Option<PlanMessage>,
}

/// Ghost model of an `ExecutePlanRequest`.
pub struct ExecutePlanRequestV {
    pub session_id: Seq<char>,
    pub client_type: Option<Seq<char>>,
    pub user_context: Option<UserContextV>,
    pub plan: Option<PlanMessageV>,
}

impl View for ExecutePlanRequest {
    type V = ExecutePlanRequestV;

    open spec fn view(&self) -> ExecutePlanRequestV {
        ExecutePlanRequestV {
            session_id: self.session_id@,
            client_type: self.client_type.deep_view(),
            user_context: self.user_context.deep_view(),
            plan: self.plan.deep_view(),
        }
    }
}

impl DeepView for ExecutePlanRequest {
    type V = ExecutePlanRequestV;

    open spec fn deep_view(&self) -> ExecutePlanRequestV {
        self.view()
    }
}

/// One columnar batch as carried by a response: a row count and the opaque
/// payload bytes of a streaming columnar format.
#[derive(Clone, Debug, PartialEq)]
pub struct ArrowBatch {
    pub row_count: i64,
    pub data: Vec<u8>,
}

/// Ghost model of an `ArrowBatch`.
pub struct ArrowBatchV {
    pub row_count: int,
    pub data: Seq<u8>,
}

impl View for ArrowBatch {
    type V = ArrowBatchV;

    open spec fn view(&self) -> ArrowBatchV {
        ArrowBatchV { row_count: self.row_count as int, data: self.data@ }
    }
}

impl DeepView for ArrowBatch {
    type V = ArrowBatchV;

    open spec fn deep_view(&self) -> ArrowBatchV {
        self.view()
    }
}

/// The schema descriptor a response element may carry; opaque to the
/// session layer, which only keeps the latest one observed.
#[derive(Clone, Debug, PartialEq)]
pub struct DataType {
    pub description: String,
}

/// Ghost model of a `DataType`.
pub struct DataTypeV {
    pub description: Seq<char>,
}

impl View for DataType {
    type V = DataTypeV;

    open spec fn view(&self) -> DataTypeV {
        DataTypeV { description: self.description@ }
    }
}

impl DeepView for DataType {
    type V = DataTypeV;

    open spec fn deep_view(&self) -> DataTypeV {
        self.view()
    }
}

/// The metrics block a response element may carry; opaque to the session
/// layer, which only keeps the latest one observed.
#[derive(Clone, Debug, PartialEq)]
pub struct Metrics {
    pub description: String,
}

/// Ghost model of a `Metrics`.
pub struct MetricsV {
    pub description: Seq<char>,
}

impl View for Metrics {
    type V = MetricsV;

    open spec fn view(&self) -> MetricsV {
        MetricsV { description: self.description@ }
    }
}

impl DeepView for Metrics {
    type V = MetricsV;

    open spec fn deep_view(&self) -> MetricsV {
        self.view()
    }
}

/// The response-type payload of one streamed response element: either a
/// columnar batch, or a variant this client does not recognize, carried as
/// a description of what was received.
#[derive(Clone, Debug, PartialEq)]
pub enum ResponseType {
    ArrowBatch(ArrowBatch),
    Unsupported(String),
}

/// Ghost model of a `ResponseType`.
pub enum ResponseTypeV {
    ArrowBatch(ArrowBatchV),
    Unsupported(Seq<char>),
}

impl View for ResponseType {
    type V = ResponseTypeV;

    open spec fn view(&self) -> ResponseTypeV {
        match self {
            ResponseType::ArrowBatch(b) => ResponseTypeV::ArrowBatch(b@),
            ResponseType::Unsupported(d) => ResponseTypeV::Unsupported(d@),
        }
    }
}

impl DeepView for ResponseType {
    type V = ResponseTypeV;

    open spec fn deep_view(&self) -> ResponseTypeV {
        self.view()
    }
}

/// One streamed response element: an optional schema descriptor, an
/// optional metrics block, and an optional response-type payload.
#[derive(Clone, Debug, PartialEq)]
pub struct ExecutePlanResponse {
    pub schema: Option<DataType>,
    pub metrics: Option<Metrics>,
    pub response_type: Option<ResponseType>,
}

/// Ghost model of an `ExecutePlanResponse`.
pub struct ExecutePlanResponseV {
    pub schema: Option<DataTypeV>,
    pub metrics: Option<MetricsV>,
    pub response_type: Option<ResponseTypeV>,
}

impl View for ExecutePlanResponse {
    type V = ExecutePlanResponseV;

    open spec fn view(&self) -> ExecutePlanResponseV {
        ExecutePlanResponseV {
            schema: self.schema.deep_view(),
            metrics: self.metrics.deep_view(),
            response_type: self.response_type.deep_view(),
        }
    }
}

impl DeepView for ExecutePlanResponse {
    type V = ExecutePlanResponseV;

    open spec fn deep_view(&self) -> ExecutePlanResponseV {
        self.view()
    }
}

} // verus!
