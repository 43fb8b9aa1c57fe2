//! The fluent builder surface: a reader that configures and terminates into
//! a scan or load plan, a data frame whose projections wrap the previous
//! plan without mutating it, and a writer that accumulates a write
//! specification. Every step is a pure value transformation; no I/O happens
//! here.
use crate::plan::{
    plan_lower, LoadPlan, LoadPlanV, NamedTableReadPlan, NamedTableReadPlanV, PlanNode, PlanNodeV,
    Project, ProjectV,
};
use crate::protocol::{
    BucketBy, BucketByV, SaveMode, SaveType, WriteOperation, WriteOperationV,
};
use crate::wire::{
    clone_pairs, column_ref_expr, expr_text_expr, options_keys_unique, Expression,
    ExpressionString, ExpressionV, ExprType, UnresolvedAttribute,
};
use vstd::prelude::*;

verus! {

/// A handle on one logical plan tree; projections produce a new frame
/// wrapping a deep copy of this one's plan.
#[derive(Debug, PartialEq)]
pub struct DataFrame {
    pub plan: PlanNode,
}

/// Ghost model of a `DataFrame`.
pub struct DataFrameV {
    pub plan: PlanNodeV,
}

impl View for DataFrame {
    type V = DataFrameV;

    open spec fn view(&self) -> DataFrameV {
        DataFrameV { plan: self.plan@ }
    }
}

impl DeepView for DataFrame {
    type V = DataFrameV;

    open spec fn deep_view(&self) -> DataFrameV {
        self.view()
    }
}

/// Which of the two wire-expression constructors a projection uses.
#[derive(Clone, Copy, Debug, PartialEq, Eq, Structural)]
enum ExprKind {
    ColumnReference,
    ExpressionText,
}

/// The plan a `select` call builds: a projection of column references over
/// the previous plan.
pub open spec fn select_plan_spec(names: Seq<Seq<char>>, input: PlanNodeV) -> PlanNodeV {
    PlanNodeV::Project(
        ProjectV {
            expressions: names.map_values(|n: Seq<char>| column_ref_expr(n)),
            input: Box::new(input),
        },
    )
}

/// The plan a `select_expr` call builds: a projection of free expression
/// text over the previous plan.
pub open spec fn select_expr_plan_spec(names: Seq<Seq<char>>, input: PlanNodeV) -> PlanNodeV {
    PlanNodeV::Project(
        ProjectV {
            expressions: names.map_values(|n: Seq<char>| expr_text_expr(n)),
            input: Box::new(input),
        },
    )
}

impl DataFrame {
    /// Wraps a plan tree in a frame handle.
    pub fn new(plan: PlanNode) -> (df: DataFrame)
        ensures
            df@.plan == plan@,
    {
        DataFrame { plan }
    }

    /// Projects the given columns, treating every input as a column
    /// reference, never as expression text. The previous plan is wrapped
    /// unchanged, by deep copy.
    pub fn select(&self, attrs: Vec<String>) -> (df: DataFrame)
        ensures
            df@.plan == select_plan_spec(attrs.deep_view(), self@.plan),
    {
        self.project(attrs, ExprKind::ColumnReference)
    }

    /// Projects the given expressions, treating every input as expression
    /// text for the remote engine to parse, never as a column reference.
    /// The previous plan is wrapped unchanged, by deep copy.
    pub fn select_expr(&self, exprs: Vec<String>) -> (df: DataFrame)
        ensures
            df@.plan == select_expr_plan_spec(exprs.deep_view(), self@.plan),
    {
        self.project(exprs, ExprKind::ExpressionText)
    }

    /// Builds the projection plan shared by the two selection forms; the
    /// two are distinguished only by which wire-expression constructor each
    /// input is run through.
    fn project(&self, attrs: Vec<String>, kind: ExprKind) -> (df: DataFrame)
        ensures
            kind == ExprKind::ColumnReference ==> df@.plan == select_plan_spec(
                attrs.deep_view(),
                self@.plan,
            ),
            kind == ExprKind::ExpressionText ==> df@.plan == select_expr_plan_spec(
                attrs.deep_view(),
                self@.plan,
            ),
    {
        let mut expressions: Vec<Expression> = Vec::new();
        let mut i: usize = 0;
        while i < attrs.len()
            invariant
                i <= attrs.len(),
                kind == ExprKind::ColumnReference ==> expressions.deep_view()
                    =~= attrs.deep_view().take(i as int).map_values(
                    |n: Seq<char>| column_ref_expr(n),
                ),
                kind == ExprKind::ExpressionText ==> expressions.deep_view()
                    =~= attrs.deep_view().take(i as int).map_values(
                    |n: Seq<char>| expr_text_expr(n),
                ),
            decreases attrs.len() - i,
        {
            let ghost prev = expressions.deep_view();
            let name = attrs[i].clone();
            let e = match kind {
                ExprKind::ColumnReference => Expression {
                    expr_type: Some(
                        ExprType::UnresolvedAttribute(
                            UnresolvedAttribute { unparsed_identifier: name },
                        ),
                    ),
                },
                ExprKind::ExpressionText => Expression {
                    expr_type: Some(
                        ExprType::ExpressionString(ExpressionString { expression: name }),
                    ),
                },
            };
            expressions.push(e);
            proof {
                assert(expressions.deep_view() =~= prev.push(e.deep_view()));
                if kind == ExprKind::ColumnReference {
                    assert(expressions.deep_view() =~= attrs.deep_view().take(
                        i + 1 as int,
                    ).map_values(|n: Seq<char>| column_ref_expr(n)));
                } else {
                    assert(expressions.deep_view() =~= attrs.deep_view().take(
                        i + 1 as int,
                    ).map_values(|n: Seq<char>| expr_text_expr(n)));
                }
            }
            i = i + 1;
        }
        proof {
            assert(attrs.deep_view().take(attrs.deep_view().len() as int) =~= attrs.deep_view());
        }
        DataFrame {
            plan: PlanNode::Project(
                Project { expressions, input: Box::new(self.plan.deep_clone()) },
            ),
        }
    }

    /// Opens a writer over a deep copy of this frame's plan, with nothing
    /// configured and the save mode left unspecified.
    pub fn write(&self) -> (w: DataFrameWriter)
        ensures
            w@ == (DataFrameWriterV {
                bucket_by: None,
                format: None,
                mode: SaveMode::Unspecified,
                options: Seq::empty(),
                partitioning_columns: Seq::empty(),
                plan: self@.plan,
                sort_column_names: Seq::empty(),
            }),
    {
        DataFrameWriter::new(self.plan.deep_clone())
    }
}

/// Configures where and how a frame's rows are read from.
#[derive(Clone, Debug, PartialEq)]
pub struct DataFrameReader {
    pub format: Option<String>,
    pub schema: Option<String>,
    pub options: Vec<(String, String)>,
}

/// Ghost model of a `DataFrameReader`.
pub struct DataFrameReaderV {
    pub format: Option<Seq<char>>,
    pub schema: Option<Seq<char>>,
    pub options: Seq<(Seq<char>, Seq<char>)>,
}

impl View for DataFrameReader {
    type V = DataFrameReaderV;

    open spec fn view(&self) -> DataFrameReaderV {
        DataFrameReaderV {
            format: self.format.deep_view(),
            schema: self.schema.deep_view(),
            options: self.options.deep_view(),
        }
    }
}

impl DeepView for DataFrameReader {
    type V = DataFrameReaderV;

    open spec fn deep_view(&self) -> DataFrameReaderV {
        self.view()
    }
}

impl DataFrameReader {
    /// The invariant the keyed option map carries: no key occurs twice.
    pub open spec fn wf(&self) -> bool {
        options_keys_unique(self@.options)
    }

    /// A fresh reader with nothing configured.
    pub fn new() -> (r: DataFrameReader)
        ensures
            r@ == (DataFrameReaderV { format: None, schema: None, options: Seq::empty() }),
            r.wf(),
    {
        let r = DataFrameReader { format: None, schema: None, options: Vec::new() };
        proof {
            assert(r@.options =~= Seq::<(Seq<char>, Seq<char>)>::empty());
        }
        r
    }

    /// Sets or clears the user-provided schema text.
    pub fn schema(self, schema: Option<String>) -> (r: DataFrameReader)
        ensures
            r@ == (DataFrameReaderV {
                format: self@.format,
                schema: schema.deep_view(),
                options: self@.options,
            }),
    {
        DataFrameReader { schema, ..self }
    }

    /// Replaces the option map. The pair list stands for a string-keyed
    /// map, so no key may occur twice.
    pub fn options(self, options: Vec<(String, String)>) -> (r: DataFrameReader)
        requires
            options_keys_unique(options.deep_view()),
        ensures
            r@ == (DataFrameReaderV {
                format: self@.format,
                schema: self@.schema,
                options: options.deep_view(),
            }),
            r.wf(),
    {
        DataFrameReader { options, ..self }
    }

    /// Sets the source format tag.
    pub fn format(self, format: String) -> (r: DataFrameReader)
        ensures
            r@ == (DataFrameReaderV {
                format: Some(format@),
                schema: self@.schema,
                options: self@.options,
            }),
    {
        DataFrameReader { format: Some(format), ..self }
    }

    /// Terminates into a scan of a table registered by name, carrying the
    /// configured options.
    pub fn table(self, table_name: String) -> (df: DataFrame)
        ensures
            df@.plan == PlanNodeV::NamedTable(
                NamedTableReadPlanV { table_name: table_name@, options: self@.options },
            ),
    {
        DataFrame {
            plan: PlanNode::NamedTable(
                NamedTableReadPlan { table_name, options: self.options },
            ),
        }
    }

    /// Terminates into a load of the given storage paths, carrying the
    /// configured format, schema and options.
    pub fn load(self, paths: Vec<String>) -> (df: DataFrame)
        ensures
            df@.plan == PlanNodeV::Load(
                LoadPlanV {
                    paths: paths.deep_view(),
                    options: self@.options,
                    format: self@.format,
                    schema: self@.schema,
                },
            ),
    {
        DataFrame {
            plan: PlanNode::Load(
                LoadPlan {
                    paths,
                    format: self.format,
                    options: self.options,
                    schema: self.schema,
                },
            ),
        }
    }
}

/// Accumulates a write specification over one plan; consumed by building
/// the wire write operation and never mutated after that.
#[derive(Debug, PartialEq)]
pub struct DataFrameWriter {
    pub bucket_by: Option<BucketBy>,
    pub format: Option<String>,
    pub mode: SaveMode,
    pub options: Vec<(String, String)>,
    pub partitioning_columns: Vec<String>,
    pub plan: PlanNode,
    pub sort_column_names: Vec<String>,
}

/// Ghost model of a `DataFrameWriter`.
pub struct DataFrameWriterV {
    pub bucket_by: Option<BucketByV>,
    pub format: Option<Seq<char>>,
    pub mode: SaveMode,
    pub options: Seq<(Seq<char>, Seq<char>)>,
    pub partitioning_columns: Seq<Seq<char>>,
    pub plan: PlanNodeV,
    pub sort_column_names: Seq<Seq<char>>,
}

impl View for DataFrameWriter {
    type V = DataFrameWriterV;

    open spec fn view(&self) -> DataFrameWriterV {
        DataFrameWriterV {
            bucket_by: self.bucket_by.deep_view(),
            format: self.format.deep_view(),
            mode: self.mode,
            options: self.options.deep_view(),
            partitioning_columns: self.partitioning_columns.deep_view(),
            plan: self.plan@,
            sort_column_names: self.sort_column_names.deep_view(),
        }
    }
}

impl DeepView for DataFrameWriter {
    type V = DataFrameWriterV;

    open spec fn deep_view(&self) -> DataFrameWriterV {
        self.view()
    }
}

impl DataFrameWriter {
    /// The invariant the keyed option map carries: no key occurs twice.
    pub open spec fn wf(&self) -> bool {
        options_keys_unique(self@.options)
    }

    /// A fresh writer over the given plan: no format, no bucketing, no
    /// options, no partitioning or sorting, and the save mode left
    /// unspecified (the server's default policy is error-if-exists).
    pub fn new(plan: PlanNode) -> (w: DataFrameWriter)
        ensures
            w.wf(),
            w@ == (DataFrameWriterV {
                bucket_by: None,
                format: None,
                mode: SaveMode::Unspecified,
                options: Seq::empty(),
                partitioning_columns: Seq::empty(),
                plan: plan@,
                sort_column_names: Seq::empty(),
            }),
    {
        let w = DataFrameWriter {
            bucket_by: None,
            format: None,
            mode: SaveMode::default(),
            options: Vec::new(),
            partitioning_columns: Vec::new(),
            plan,
            sort_column_names: Vec::new(),
        };
        proof {
            assert(w@.options =~= Seq::<(Seq<char>, Seq<char>)>::empty());
            assert(w@.partitioning_columns =~= Seq::<Seq<char>>::empty());
            assert(w@.sort_column_names =~= Seq::<Seq<char>>::empty());
        }
        w
    }

    /// Sets the bucketing specification.
    pub fn bucket_by(self, bucket_by: BucketBy) -> (w: DataFrameWriter)
        ensures
            w@ == (DataFrameWriterV { bucket_by: Some(bucket_by@), ..self@ }),
    {
        DataFrameWriter { bucket_by: Some(bucket_by), ..self }
    }

    /// Sets the target format.
    pub fn format(self, format: String) -> (w: DataFrameWriter)
        ensures
            w@ == (DataFrameWriterV { format: Some(format@), ..self@ }),
    {
        DataFrameWriter { format: Some(format), ..self }
    }

    /// Sets the save mode.
    pub fn mode(self, mode: SaveMode) -> (w: DataFrameWriter)
        ensures
            w@ == (DataFrameWriterV { mode, ..self@ }),
    {
        DataFrameWriter { mode, ..self }
    }

    /// Replaces the option map. The pair list stands for a string-keyed
    /// map, so no key may occur twice.
    pub fn options(self, options: Vec<(String, String)>) -> (w: DataFrameWriter)
        requires
            options_keys_unique(options.deep_view()),
        ensures
            w@ == (DataFrameWriterV { options: options.deep_view(), ..self@ }),
            w.wf(),
    {
        DataFrameWriter { options, ..self }
    }

    /// Builds the wire write operation this writer describes: the plan is
    /// lowered and becomes the operation's input, and the accumulated
    /// specification is carried over unchanged. The save target should be
    /// left out when the destination is neither a path nor a table, as for
    /// connector-specific sinks.
    pub fn build_write_operation(self, save_type: Option<SaveType>) -> (w: WriteOperation)
        ensures
            w@ == (WriteOperationV {
                input: Some(plan_lower(self@.plan)),
                source: self@.format,
                mode: self@.mode,
                sort_column_names: self@.sort_column_names,
                partitioning_columns: self@.partitioning_columns,
                bucket_by: self@.bucket_by,
                options: self@.options,
                save_type: save_type.deep_view(),
            }),
    {
        let input = crate::plan::lower_node(&self.plan);
        WriteOperation {
            input: Some(input),
            source: self.format,
            mode: self.mode,
            sort_column_names: self.sort_column_names,
            partitioning_columns: self.partitioning_columns,
            bucket_by: self.bucket_by,
            options: self.options,
            save_type,
        }
    }
}

/// The shape both selection forms build: one wire expression per input, in
/// order, each made by that form's constructor — a column reference for
/// `select`, expression text for `select_expr` — over the unchanged input
/// plan.
pub proof fn lemma_projection_shape(names: Seq<Seq<char>>, input: PlanNodeV)
    ensures
        select_plan_spec(names, input) matches PlanNodeV::Project(p) && {
            &&& p.input == Box::new(input)
            &&& p.expressions.len() == names.len()
            &&& forall|i: int|
                0 <= i < names.len() ==> #[trigger] p.expressions[i] == column_ref_expr(names[i])
        },
        select_expr_plan_spec(names, input) matches PlanNodeV::Project(q) && {
            &&& q.input == Box::new(input)
            &&& q.expressions.len() == names.len()
            &&& forall|i: int|
                0 <= i < names.len() ==> #[trigger] q.expressions[i] == expr_text_expr(names[i])
        },
{
}

/// The two selection forms are never interchangeable: over any input plan,
/// a nonempty list of inputs lowers to different wire relations depending
/// on whether it was taken as column references or as expression text.
pub proof fn lemma_select_forms_distinct(names: Seq<Seq<char>>, input: PlanNodeV)
    requires
        names.len() > 0,
    ensures
        plan_lower(select_plan_spec(names, input)) != plan_lower(
            select_expr_plan_spec(names, input),
        ),
{
    let ea = names.map_values(|n: Seq<char>| column_ref_expr(n));
    let eb = names.map_values(|n: Seq<char>| expr_text_expr(n));
    assert(ea[0] == column_ref_expr(names[0]));
    assert(eb[0] == expr_text_expr(names[0]));
    assert(ea != eb);
}

} // verus!
