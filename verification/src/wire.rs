//! Wire-level relation and expression trees: the protocol-schema
//! representation of a logical plan, exchanged with the remote engine.
use vstd::prelude::*;

verus! {

/// Wire form of a single expression inside a projection.
#[derive(Clone, Debug, PartialEq)]
pub struct UnresolvedAttribute {
    pub unparsed_identifier: String,
}

/// Ghost model of an `UnresolvedAttribute`.
pub struct UnresolvedAttributeV {
    pub unparsed_identifier: Seq<char>,
}

impl View for UnresolvedAttribute {
    type V = UnresolvedAttributeV;

    open spec fn view(&self) -> UnresolvedAttributeV {
        UnresolvedAttributeV { unparsed_identifier: self.unparsed_identifier@ }
    }
}

impl DeepView for UnresolvedAttribute {
    type V = UnresolvedAttributeV;

    open spec fn deep_view(&self) -> UnresolvedAttributeV {
        self.view()
    }
}

/// Wire form of a free-text expression to be parsed by the remote engine.
#[derive(Clone, Debug, PartialEq)]
pub struct ExpressionString {
    pub expression: String,
}

/// Ghost model of an `ExpressionString`.
pub struct ExpressionStringV {
    pub expression: Seq<char>,
}

impl View for ExpressionString {
    type V = ExpressionStringV;

    open spec fn view(&self) -> ExpressionStringV {
        ExpressionStringV { expression: self.expression@ }
    }
}

impl DeepView for ExpressionString {
    type V = ExpressionStringV;

    open spec fn deep_view(&self) -> ExpressionStringV {
        self.view()
    }
}

/// The two expression constructors the projection API distinguishes:
/// a column reference versus parseable expression text.
#[derive(Clone, Debug, PartialEq)]
pub enum ExprType {
    UnresolvedAttribute(UnresolvedAttribute),
    ExpressionString(ExpressionString),
}

/// Ghost model of an `ExprType`.
pub enum ExprTypeV {
    UnresolvedAttribute(UnresolvedAttributeV),
    ExpressionString(ExpressionStringV),
}

impl View for ExprType {
    type V = ExprTypeV;

    open spec fn view(&self) -> ExprTypeV {
        match self {
            ExprType::UnresolvedAttribute(a) => ExprTypeV::UnresolvedAttribute(a@),
            ExprType::ExpressionString(e) => ExprTypeV::ExpressionString(e@),
        }
    }
}

impl DeepView for ExprType {
    type V = ExprTypeV;

    open spec fn deep_view(&self) -> ExprTypeV {
        self.view()
    }
}

/// Wire form of one expression.
#[derive(Clone, Debug, PartialEq)]
pub struct Expression {
    pub expr_type: Option<ExprType>,
}

/// Ghost model of an `Expression`.
pub struct ExpressionV {
    pub expr_type: Option<ExprTypeV>,
}

impl View for Expression {
    type V = ExpressionV;

    open spec fn view(&self) -> ExpressionV {
        ExpressionV { expr_type: self.expr_type.deep_view() }
    }
}

impl DeepView for Expression {
    type V = ExpressionV;

    open spec fn deep_view(&self) -> ExpressionV {
        self.view()
    }
}

/// Wire form of a SQL-text relation.
#[derive(Clone, Debug, PartialEq)]
pub struct Sql {
    pub query: String,
}

/// Ghost model of a `Sql` relation.
pub struct SqlV {
    pub query: Seq<char>,
}

impl View for Sql {
    type V = SqlV;

    open spec fn view(&self) -> SqlV {
        SqlV { query: self.query@ }
    }
}

impl DeepView for Sql {
    type V = SqlV;

    open spec fn deep_view(&self) -> SqlV {
        self.view()
    }
}

/// Wire form of a scan of a table registered by name.
#[derive(Clone, Debug, PartialEq)]
pub struct NamedTable {
    pub unparsed_identifier: String,
    pub options: Vec<(String, String)>,
}

/// Ghost model of a `NamedTable`.
pub struct NamedTableV {
    pub unparsed_identifier: Seq<char>,
    pub options: Seq<(Seq<char>, Seq<char>)>,
}

impl View for NamedTable {
    type V = NamedTableV;

    open spec fn view(&self) -> NamedTableV {
        NamedTableV {
            unparsed_identifier: self.unparsed_identifier@,
            options: self.options.deep_view(),
        }
    }
}

impl DeepView for NamedTable {
    type V = NamedTableV;

    open spec fn deep_view(&self) -> NamedTableV {
        self.view()
    }
}

/// Wire form of a load from storage paths.
#[derive(Clone, Debug, PartialEq)]
pub struct DataSource {
    pub paths: Vec<String>,
    pub format: Option<String>,
    pub schema: Option<String>,
    pub options: Vec<(String, String)>,
}

/// Ghost model of a `DataSource`.
pub struct DataSourceV {
    pub paths: Seq<Seq<char>>,
    pub format: Option<Seq<char>>,
    pub schema: Option<Seq<char>>,
    pub options: Seq<(Seq<char>, Seq<char>)>,
}

impl View for DataSource {
    type V = DataSourceV;

    open spec fn view(&self) -> DataSourceV {
        DataSourceV {
            paths: self.paths.deep_view(),
            format: self.format.deep_view(),
            schema: self.schema.deep_view(),
            options: self.options.deep_view(),
        }
    }
}

impl DeepView for DataSource {
    type V = DataSourceV;

    open spec fn deep_view(&self) -> DataSourceV {
        self.view()
    }
}

/// The two ways a read relation names its input.
#[derive(Clone, Debug, PartialEq)]
pub enum ReadType {
    NamedTable(NamedTable),
    DataSource(DataSource),
}

/// Ghost model of a `ReadType`.
pub enum ReadTypeV {
    NamedTable(NamedTableV),
    DataSource(DataSourceV),
}

impl View for ReadType {
    type V = ReadTypeV;

    open spec fn view(&self) -> ReadTypeV {
        match self {
            ReadType::NamedTable(t) => ReadTypeV::NamedTable(t@),
            ReadType::DataSource(s) => ReadTypeV::DataSource(s@),
        }
    }
}

impl DeepView for ReadType {
    type V = ReadTypeV;

    open spec fn deep_view(&self) -> ReadTypeV {
        self.view()
    }
}

/// Wire form of a read relation.
#[derive(Clone, Debug, PartialEq)]
pub struct Read {
    pub is_streaming: bool,
    pub read_type: Option<ReadType>,
}

/// Ghost model of a `Read` relation.
pub struct ReadV {
    pub is_streaming: bool,
    pub read_type: Option<ReadTypeV>,
}

impl View for Read {
    type V = ReadV;

    open spec fn view(&self) -> ReadV {
        ReadV { is_streaming: self.is_streaming, read_type: self.read_type.deep_view() }
    }
}

impl DeepView for Read {
    type V = ReadV;

    open spec fn deep_view(&self) -> ReadV {
        self.view()
    }
}

/// Wire form of a projection relation: expressions over one child relation.
#[derive(Debug, PartialEq)]
pub struct ProjectRel {
    pub input: Option<Box<Relation>>,
    pub expressions: Vec<Expression>,
}

/// Ghost model of a `ProjectRel`.
pub struct ProjectRelV {
    pub input: Option<Box<RelationV>>,
    pub expressions: Seq<ExpressionV>,
}

impl View for ProjectRel {
    type V = ProjectRelV;

    open spec fn view(&self) -> ProjectRelV {
        spec_project_rel_view(*self)
    }
}

impl DeepView for ProjectRel {
    type V = ProjectRelV;

    open spec fn deep_view(&self) -> ProjectRelV {
        self.view()
    }
}

/// The closed set of relation variants this client can lower to.
#[derive(Debug, PartialEq)]
pub enum RelType {
    Sql(Sql),
    Read(Read),
    Project(Box<ProjectRel>),
}

/// Ghost model of a `RelType`.
pub enum RelTypeV {
    Sql(SqlV),
    Read(ReadV),
    Project(Box<ProjectRelV>),
}

impl View for RelType {
    type V = RelTypeV;

    open spec fn view(&self) -> RelTypeV {
        spec_rel_type_view(*self)
    }
}

impl DeepView for RelType {
    type V = RelTypeV;

    open spec fn deep_view(&self) -> RelTypeV {
        self.view()
    }
}

/// Wire form of a relation tree, the unit shipped to the remote engine.
#[derive(Debug, PartialEq)]
pub struct Relation {
    pub rel_type: Option<RelType>,
}

/// Ghost model of a `Relation`.
pub struct RelationV {
    pub rel_type: Option<RelTypeV>,
}

impl View for Relation {
    type V = RelationV;

    open spec fn view(&self) -> RelationV {
        spec_relation_view(*self)
    }
}

impl DeepView for Relation {
    type V = RelationV;

    open spec fn deep_view(&self) -> RelationV {
        self.view()
    }
}

/// The ghost shape of a relation value; the relation tree is recursive, so
/// the three views below are written as one mutually recursive family.
pub open spec fn spec_relation_view(r: Relation) -> RelationV
    decreases r,
{
    RelationV {
        rel_type: match r.rel_type {
            Some(t) => Some(spec_rel_type_view(t)),
            None => None,
        },
    }
}

/// The ghost shape of one relation variant.
pub open spec fn spec_rel_type_view(t: RelType) -> RelTypeV
    decreases t,
{
    match t {
        RelType::Sql(s) => RelTypeV::Sql(s@),
        RelType::Read(r) => RelTypeV::Read(r@),
        RelType::Project(p) => RelTypeV::Project(Box::new(spec_project_rel_view(*p))),
    }
}

/// The ghost shape of a projection relation.
pub open spec fn spec_project_rel_view(p: ProjectRel) -> ProjectRelV
    decreases p,
{
    ProjectRelV {
        input: match p.input {
            Some(r) => Some(Box::new(spec_relation_view(*r))),
            None => None,
        },
        expressions: p.expressions.deep_view(),
    }
}

/// Copies a vector of strings; the copy has the same view.
pub fn clone_string_vec(v: &Vec<String>) -> (r: Vec<String>)
    ensures
        r.deep_view() == v.deep_view(),
{
    let mut out: Vec<String> = Vec::new();
    let mut i: usize = 0;
    while i < v.len()
        invariant
            i <= v.len(),
            out.deep_view() =~= v.deep_view().take(i as int),
        decreases v.len() - i,
    {
        let ghost prev = out.deep_view();
        let s = v[i].clone();
        out.push(s);
        proof {
            assert(out.deep_view() =~= prev.push(s.deep_view()));
            assert(out.deep_view() =~= v.deep_view().take(i + 1 as int));
        }
        i = i + 1;
    }
    proof {
        assert(out.deep_view() =~= v.deep_view());
    }
    out
}

/// Copies an option map held as key/value string pairs; the copy has the
/// same view.
pub fn clone_pairs(v: &Vec<(String, String)>) -> (r: Vec<(String, String)>)
    ensures
        r.deep_view() == v.deep_view(),
{
    let mut out: Vec<(String, String)> = Vec::new();
    let mut i: usize = 0;
    while i < v.len()
        invariant
            i <= v.len(),
            out.deep_view() =~= v.deep_view().take(i as int),
        decreases v.len() - i,
    {
        let ghost prev = out.deep_view();
        let pair = (v[i].0.clone(), v[i].1.clone());
        proof {
            assert(pair.deep_view() == v[i as int].deep_view());
        }
        out.push(pair);
        proof {
            assert(out.deep_view() =~= prev.push(pair.deep_view()));
            assert(out.deep_view() =~= v.deep_view().take(i + 1 as int));
        }
        i = i + 1;
    }
    proof {
        assert(out.deep_view() =~= v.deep_view());
    }
    out
}

/// Copies an optional string; the copy has the same view.
pub fn clone_opt_string(v: &Option<String>) -> (r: Option<String>)
    ensures
        r.deep_view() == v.deep_view(),
{
    match v {
        Some(s) => Some(s.clone()),
        None => None,
    }
}

/// What a string-keyed option map guarantees by type: no key occurs twice.
/// Option maps are carried here as key/value pair lists, so the guarantee
/// is stated as an invariant and required where a map comes in.
pub open spec fn options_keys_unique(options: Seq<(Seq<char>, Seq<char>)>) -> bool {
    forall|i: int, j: int| 0 <= i < j < options.len() ==> (#[trigger] options[i]).0 != (
    #[trigger] options[j]).0
}

/// The wire expression that refers to a column by name.
pub open spec fn column_ref_expr(name: Seq<char>) -> ExpressionV {
    ExpressionV {
        expr_type: Some(
            ExprTypeV::UnresolvedAttribute(UnresolvedAttributeV { unparsed_identifier: name }),
        ),
    }
}

/// The wire expression that carries free expression text for the remote
/// engine to parse.
pub open spec fn expr_text_expr(text: Seq<char>) -> ExpressionV {
    ExpressionV { expr_type: Some(ExprTypeV::ExpressionString(ExpressionStringV { expression: text })) }
}

/// Copies one wire expression; the copy has the same view.
pub fn clone_expression(e: &Expression) -> (r: Expression)
    ensures
        r@ == e@,
{
    Expression {
        expr_type: match &e.expr_type {
            Some(ExprType::UnresolvedAttribute(a)) => Some(
                ExprType::UnresolvedAttribute(
                    UnresolvedAttribute { unparsed_identifier: a.unparsed_identifier.clone() },
                ),
            ),
            Some(ExprType::ExpressionString(s)) => Some(
                ExprType::ExpressionString(ExpressionString { expression: s.expression.clone() }),
            ),
            None => None,
        },
    }
}

/// Copies a vector of wire expressions; the copy has the same view.
pub fn clone_expressions(v: &Vec<Expression>) -> (r: Vec<Expression>)
    ensures
        r.deep_view() == v.deep_view(),
{
    let mut out: Vec<Expression> = Vec::new();
    let mut i: usize = 0;
    while i < v.len()
        invariant
            i <= v.len(),
            out.deep_view() =~= v.deep_view().take(i as int),
        decreases v.len() - i,
    {
        let ghost prev = out.deep_view();
        let e = clone_expression(&v[i]);
        out.push(e);
        proof {
            assert(out.deep_view() =~= prev.push(e.deep_view()));
            assert(out.deep_view() =~= v.deep_view().take(i + 1 as int));
        }
        i = i + 1;
    }
    proof {
        assert(out.deep_view() =~= v.deep_view());
    }
    out
}

} // verus!
