//! The logical plan model: a closed, composable tree of plan nodes, each of
//! which lowers to the wire-level relation tree. Plan nodes are immutable
//! once built; composition deep-copies the child, so no plan state is ever
//! shared between two trees.
use crate::wire::{
    clone_expressions, clone_opt_string, clone_pairs, clone_string_vec, DataSource, DataSourceV,
    Expression, ExpressionV, NamedTable, NamedTableV, ProjectRel, ProjectRelV, Read, ReadType,
    ReadTypeV, ReadV, RelType, RelTypeV, Relation, RelationV, Sql, SqlV,
};
use vstd::prelude::*;

verus! {

/// A plan node holding SQL text for the remote engine to parse and run.
#[derive(Clone, Debug, PartialEq)]
pub struct SqlPlan {
    pub query: String,
}

/// Ghost model of a `SqlPlan`.
pub struct SqlPlanV {
    pub query: Seq<char>,
}

impl View for SqlPlan {
    type V = SqlPlanV;

    open spec fn view(&self) -> SqlPlanV {
        SqlPlanV { query: self.query@ }
    }
}

impl DeepView for SqlPlan {
    type V = SqlPlanV;

    open spec fn deep_view(&self) -> SqlPlanV {
        self.view()
    }
}

/// A plan node that scans a table registered by name.
#[derive(Clone, Debug, PartialEq)]
pub struct NamedTableReadPlan {
    pub table_name: String,
    pub options: Vec<(String, String)>,
}

impl NamedTableReadPlan {
    /// The invariant the keyed option map carries: no key occurs twice.
    pub open spec fn wf(&self) -> bool {
        crate::wire::options_keys_unique(self@.options)
    }
}

/// Ghost model of a `NamedTableReadPlan`.
pub struct NamedTableReadPlanV {
    pub table_name: Seq<char>,
    pub options: Seq<(Seq<char>, Seq<char>)>,
}

impl View for NamedTableReadPlan {
    type V = NamedTableReadPlanV;

    open spec fn view(&self) -> NamedTableReadPlanV {
        NamedTableReadPlanV { table_name: self.table_name@, options: self.options.deep_view() }
    }
}

impl DeepView for NamedTableReadPlan {
    type V = NamedTableReadPlanV;

    open spec fn deep_view(&self) -> NamedTableReadPlanV {
        self.view()
    }
}

/// A plan node that loads data from storage paths.
#[derive(Clone, Debug, PartialEq)]
pub struct LoadPlan {
    pub paths: Vec<String>,
    pub options: Vec<(String, String)>,
    pub format: Option<String>,
    pub schema: Option<String>,
}

impl LoadPlan {
    /// The invariant the keyed option map carries: no key occurs twice.
    pub open spec fn wf(&self) -> bool {
        crate::wire::options_keys_unique(self@.options)
    }
}

/// Ghost model of a `LoadPlan`.
pub struct LoadPlanV {
    pub paths: Seq<Seq<char>>,
    pub options: Seq<(Seq<char>, Seq<char>)>,
    pub format: Option<Seq<char>>,
    pub schema: Option<Seq<char>>,
}

impl View for LoadPlan {
    type V = LoadPlanV;

    open spec fn view(&self) -> LoadPlanV {
        LoadPlanV {
            paths: self.paths.deep_view(),
            options: self.options.deep_view(),
            format: self.format.deep_view(),
            schema: self.schema.deep_view(),
        }
    }
}

impl DeepView for LoadPlan {
    type V = LoadPlanV;

    open spec fn deep_view(&self) -> LoadPlanV {
        self.view()
    }
}

/// A plan node projecting a list of expressions over exactly one child plan.
#[derive(Debug, PartialEq)]
pub struct Project {
    pub expressions: Vec<Expression>,
    pub input: Box<PlanNode>,
}

/// Ghost model of a `Project` plan node.
pub struct ProjectV {
    pub expressions: Seq<ExpressionV>,
    pub input: Box<PlanNodeV>,
}

impl View for Project {
    type V = ProjectV;

    open spec fn view(&self) -> ProjectV {
        spec_project_plan_view(*self)
    }
}

impl DeepView for Project {
    type V = ProjectV;

    open spec fn deep_view(&self) -> ProjectV {
        self.view()
    }
}

/// The closed set of plan node variants.
#[derive(Debug, PartialEq)]
pub enum PlanNode {
    Sql(SqlPlan),
    NamedTable(NamedTableReadPlan),
    Load(LoadPlan),
    Project(Project),
}

/// Ghost model of a `PlanNode`.
pub enum PlanNodeV {
    Sql(SqlPlanV),
    NamedTable(NamedTableReadPlanV),
    Load(LoadPlanV),
    Project(ProjectV),
}

impl View for PlanNode {
    type V = PlanNodeV;

    open spec fn view(&self) -> PlanNodeV {
        spec_plan_node_view(*self)
    }
}

impl DeepView for PlanNode {
    type V = PlanNodeV;

    open spec fn deep_view(&self) -> PlanNodeV {
        self.view()
    }
}

/// The ghost shape of a projection plan node; mutually recursive with
/// `spec_plan_node_view` because a projection owns a child plan.
pub open spec fn spec_project_plan_view(p: Project) -> ProjectV
    decreases p,
{
    ProjectV {
        expressions: p.expressions.deep_view(),
        input: Box::new(spec_plan_node_view(*p.input)),
    }
}

/// The ghost shape of a plan node.
pub open spec fn spec_plan_node_view(p: PlanNode) -> PlanNodeV
    decreases p,
{
    match p {
        PlanNode::Sql(s) => PlanNodeV::Sql(s@),
        PlanNode::NamedTable(t) => PlanNodeV::NamedTable(t@),
        PlanNode::Load(l) => PlanNodeV::Load(l@),
        PlanNode::Project(pr) => PlanNodeV::Project(spec_project_plan_view(pr)),
    }
}

/// What lowering a plan tree produces: the wire relation tree, defined
/// node by node. Lowering is a pure function of the plan's shape alone.
pub open spec fn plan_lower(p: PlanNodeV) -> RelationV
    decreases p,
{
    match p {
        PlanNodeV::Sql(s) => RelationV { rel_type: Some(RelTypeV::Sql(SqlV { query: s.query })) },
        PlanNodeV::NamedTable(t) => RelationV {
            rel_type: Some(
                RelTypeV::Read(
                    ReadV {
                        is_streaming: false,
                        read_type: Some(
                            ReadTypeV::NamedTable(
                                NamedTableV {
                                    unparsed_identifier: t.table_name,
                                    options: t.options,
                                },
                            ),
                        ),
                    },
                ),
            ),
        },
        PlanNodeV::Load(l) => RelationV {
            rel_type: Some(
                RelTypeV::Read(
                    ReadV {
                        is_streaming: false,
                        read_type: Some(
                            ReadTypeV::DataSource(
                                DataSourceV {
                                    paths: l.paths,
                                    format: l.format,
                                    schema: l.schema,
                                    options: l.options,
                                },
                            ),
                        ),
                    },
                ),
            ),
        },
        PlanNodeV::Project(pr) => RelationV {
            rel_type: Some(
                RelTypeV::Project(
                    Box::new(
                        ProjectRelV {
                            input: Some(Box::new(plan_lower(*pr.input))),
                            expressions: pr.expressions,
                        },
                    ),
                ),
            ),
        },
    }
}

/// The capability every plan node has: lowering itself into the wire
/// relation consumed by the execution engine, and deep value copying.
pub trait Plan {
    /// The node's ghost shape, erased to the common plan node model.
    spec fn node_view(&self) -> PlanNodeV;

    /// Lowers this node to its wire relation. Pure: the result is a
    /// function of the node's shape alone, and lowering cannot fail.
    fn collect(&self) -> (r: Relation)
        ensures
            r@ == plan_lower(self.node_view()),
    ;

    /// Deep value copy, erased to the common plan node type: the copy
    /// shares no state with this node and has the same shape.
    fn clone_plan(&self) -> (r: PlanNode)
        ensures
            r@ == self.node_view(),
    ;
}

/// Lowers any plan node to its wire relation, child before parent.
pub fn lower_node(p: &PlanNode) -> (r: Relation)
    ensures
        r@ == plan_lower(p@),
    decreases *p,
{
    match p {
        PlanNode::Sql(s) => Relation {
            rel_type: Some(RelType::Sql(Sql { query: s.query.clone() })),
        },
        PlanNode::NamedTable(t) => Relation {
            rel_type: Some(
                RelType::Read(
                    Read {
                        is_streaming: false,
                        read_type: Some(
                            ReadType::NamedTable(
                                NamedTable {
                                    unparsed_identifier: t.table_name.clone(),
                                    options: clone_pairs(&t.options),
                                },
                            ),
                        ),
                    },
                ),
            ),
        },
        PlanNode::Load(l) => Relation {
            rel_type: Some(
                RelType::Read(
                    Read {
                        is_streaming: false,
                        read_type: Some(
                            ReadType::DataSource(
                                DataSource {
                                    paths: clone_string_vec(&l.paths),
                                    format: clone_opt_string(&l.format),
                                    schema: clone_opt_string(&l.schema),
                                    options: clone_pairs(&l.options),
                                },
                            ),
                        ),
                    },
                ),
            ),
        },
        PlanNode::Project(pr) => {
            let child = lower_node(&pr.input);
            Relation {
                rel_type: Some(
                    RelType::Project(
                        Box::new(
                            ProjectRel {
                                input: Some(Box::new(child)),
                                expressions: clone_expressions(&pr.expressions),
                            },
                        ),
                    ),
                ),
            }
        },
    }
}

impl PlanNode {
    /// Deep value copy of a plan tree: the copy has the same shape and
    /// shares no state with the original.
    pub fn deep_clone(&self) -> (r: PlanNode)
        ensures
            r@ == self@,
        decreases *self,
    {
        match self {
            PlanNode::Sql(s) => PlanNode::Sql(SqlPlan { query: s.query.clone() }),
            PlanNode::NamedTable(t) => PlanNode::NamedTable(
                NamedTableReadPlan {
                    table_name: t.table_name.clone(),
                    options: clone_pairs(&t.options),
                },
            ),
            PlanNode::Load(l) => PlanNode::Load(
                LoadPlan {
                    paths: clone_string_vec(&l.paths),
                    options: clone_pairs(&l.options),
                    format: clone_opt_string(&l.format),
                    schema: clone_opt_string(&l.schema),
                },
            ),
            PlanNode::Project(pr) => PlanNode::Project(
                Project {
                    expressions: clone_expressions(&pr.expressions),
                    input: Box::new(pr.input.deep_clone()),
                },
            ),
        }
    }
}

impl Plan for SqlPlan {
    open spec fn node_view(&self) -> PlanNodeV {
        PlanNodeV::Sql(self@)
    }

    fn collect(&self) -> (r: Relation) {
        Relation { rel_type: Some(RelType::Sql(Sql { query: self.query.clone() })) }
    }

    fn clone_plan(&self) -> (r: PlanNode) {
        PlanNode::Sql(SqlPlan { query: self.query.clone() })
    }
}

impl Plan for NamedTableReadPlan {
    open spec fn node_view(&self) -> PlanNodeV {
        PlanNodeV::NamedTable(self@)
    }

    fn collect(&self) -> (r: Relation) {
        Relation {
            rel_type: Some(
                RelType::Read(
                    Read {
                        is_streaming: false,
                        read_type: Some(
                            ReadType::NamedTable(
                                NamedTable {
                                    unparsed_identifier: self.table_name.clone(),
                                    options: clone_pairs(&self.options),
                                },
                            ),
                        ),
                    },
                ),
            ),
        }
    }

    fn clone_plan(&self) -> (r: PlanNode) {
        PlanNode::NamedTable(
            NamedTableReadPlan {
                table_name: self.table_name.clone(),
                options: clone_pairs(&self.options),
            },
        )
    }
}

impl Plan for LoadPlan {
    open spec fn node_view(&self) -> PlanNodeV {
        PlanNodeV::Load(self@)
    }

    fn collect(&self) -> (r: Relation) {
        Relation {
            rel_type: Some(
                RelType::Read(
                    Read {
                        is_streaming: false,
                        read_type: Some(
                            ReadType::DataSource(
                                DataSource {
                                    paths: clone_string_vec(&self.paths),
                                    format: clone_opt_string(&self.format),
                                    schema: clone_opt_string(&self.schema),
                                    options: clone_pairs(&self.options),
                                },
                            ),
                        ),
                    },
                ),
            ),
        }
    }

    fn clone_plan(&self) -> (r: PlanNode) {
        PlanNode::Load(
            LoadPlan {
                paths: clone_string_vec(&self.paths),
                options: clone_pairs(&self.options),
                format: clone_opt_string(&self.format),
                schema: clone_opt_string(&self.schema),
            },
        )
    }
}

impl Plan for Project {
    open spec fn node_view(&self) -> PlanNodeV {
        PlanNodeV::Project(self@)
    }

    fn collect(&self) -> (r: Relation) {
        let child = lower_node(&self.input);
        Relation {
            rel_type: Some(
                RelType::Project(
                    Box::new(
                        ProjectRel {
                            input: Some(Box::new(child)),
                            expressions: clone_expressions(&self.expressions),
                        },
                    ),
                ),
            ),
        }
    }

    fn clone_plan(&self) -> (r: PlanNode) {
        PlanNode::Project(
            Project {
                expressions: clone_expressions(&self.expressions),
                input: Box::new(self.input.deep_clone()),
            },
        )
    }
}

impl Plan for PlanNode {
    open spec fn node_view(&self) -> PlanNodeV {
        self@
    }

    fn collect(&self) -> (r: Relation) {
        lower_node(self)
    }

    fn clone_plan(&self) -> (r: PlanNode) {
        self.deep_clone()
    }
}

/// Lowering is pure and deterministic: two structurally equal plan trees
/// (for example, a tree and its deep clone) lower to structurally equal
/// wire relations.
pub proof fn lemma_lower_deterministic(a: PlanNodeV, b: PlanNodeV)
    requires
        a == b,
    ensures
        plan_lower(a) == plan_lower(b),
{
}

} // verus!
