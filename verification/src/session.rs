//! The session layer's decision logic: the session identity and request
//! construction, and the collector that folds an ordered stream of partial
//! responses into one result. Later schema and metrics blocks supersede
//! earlier ones (last write wins); the last columnar payload observed is the
//! one materialized, and a stream that never carried a payload is a distinct
//! failure, `EmptyResponse`, never an empty result set.
use crate::arrow::{deserialize, ipc_stream_batch_count, RecordBatch};
use crate::error::{NotImplementedYetError, SparkError};
use crate::protocol::{
    ArrowBatch, Context, ContextV, DataType, ExecutePlanRequest, ExecutePlanRequestV,
    ExecutePlanResponse, ExecutePlanResponseV, Extension, Metrics, OpType, PlanMessage,
    PlanMessageV, ResponseType, ResponseTypeV, UserContext, UserContextV,
};
use vstd::prelude::*;
use vstd::slice::slice_to_vec;

verus! {

/// Transient per-call accumulator for a streamed response sequence.
#[derive(Debug)]
pub struct Collector {
    pub schema: Option<DataType>,
    pub data: Option<ArrowBatch>,
    pub metrics: Option<Metrics>,
}

/// Ghost model of a `Collector`.
pub struct CollectorV {
    pub schema: Option<crate::protocol::DataTypeV>,
    pub data: Option<crate::protocol::ArrowBatchV>,
    pub metrics: Option<crate::protocol::MetricsV>,
}

impl View for Collector {
    type V = CollectorV;

    open spec fn view(&self) -> CollectorV {
        CollectorV {
            schema: self.schema.deep_view(),
            data: self.data.deep_view(),
            metrics: self.metrics.deep_view(),
        }
    }
}

impl DeepView for Collector {
    type V = CollectorV;

    open spec fn deep_view(&self) -> CollectorV {
        self.view()
    }
}

/// The collector state after folding in one response element: a schema or
/// metrics block replaces the one held before, and a columnar payload
/// replaces the data held before; absent pieces leave the state untouched.
pub open spec fn collector_after(c: CollectorV, resp: ExecutePlanResponseV) -> CollectorV {
    CollectorV {
        schema: if resp.schema is Some {
            resp.schema
        } else {
            c.schema
        },
        metrics: if resp.metrics is Some {
            resp.metrics
        } else {
            c.metrics
        },
        data: match resp.response_type {
            Some(ResponseTypeV::ArrowBatch(b)) => Some(b),
            _ => c.data,
        },
    }
}

/// Whether this client recognizes the response element's payload variant;
/// an unrecognized variant must fail rather than be silently dropped.
pub open spec fn response_handled(resp: ExecutePlanResponseV) -> bool {
    !(resp.response_type matches Some(ResponseTypeV::Unsupported(_)))
}

/// The collector state after folding a whole response sequence in delivery
/// order.
pub open spec fn fold_collector(c: CollectorV, responses: Seq<ExecutePlanResponseV>) -> CollectorV
    decreases responses.len(),
{
    if responses.len() == 0 {
        c
    } else {
        fold_collector(collector_after(c, responses[0]), responses.drop_first())
    }
}

impl Collector {
    /// A fresh collector: nothing observed yet.
    pub fn new() -> (c: Collector)
        ensures
            c@ == (CollectorV { schema: None, data: None, metrics: None }),
    {
        Collector { schema: None, data: None, metrics: None }
    }

    /// Folds one streamed response element into the accumulator. Fails,
    /// without dropping anything silently, when the element carries a
    /// payload variant this client does not recognize; the schema and
    /// metrics blocks are still taken over first, as delivered.
    pub fn process(&mut self, response: &ExecutePlanResponse) -> (r: Result<(), SparkError>)
        ensures
            final(self)@ == collector_after(old(self)@, response@),
            r is Ok <==> response_handled(response@),
            r matches Err(e) ==> e matches SparkError::NotImplementedYet(_),
    {
        if let Some(schema) = &response.schema {
            self.schema = Some(DataType { description: schema.description.clone() });
        }
        if let Some(metrics) = &response.metrics {
            self.metrics = Some(Metrics { description: metrics.description.clone() });
        }
        if let Some(data) = &response.response_type {
            match data {
                ResponseType::ArrowBatch(batch) => {
                    self.data = Some(
                        ArrowBatch {
                            row_count: batch.row_count,
                            data: slice_to_vec(batch.data.as_slice()),
                        },
                    );
                },
                ResponseType::Unsupported(detail) => {
                    return Err(
                        SparkError::NotImplementedYet(NotImplementedYetError(detail.clone())),
                    );
                },
            }
        }
        Ok(())
    }

    /// Materializes the folded stream. Requires that some columnar payload
    /// was observed: a stream that never carried one yields
    /// `EmptyResponse`, never an empty-but-successful batch list. With a
    /// payload observed, decodes it, succeeding exactly on valid payload
    /// bytes.
    pub fn records(self) -> (r: Result<Vec<RecordBatch>, SparkError>)
        ensures
            self@.data is None ==> r == Err::<Vec<RecordBatch>, SparkError>(
                SparkError::EmptyResponse,
            ),
            self@.data matches Some(b) ==> {
                &&& r is Ok <==> ipc_stream_batch_count(b.data) is Some
                &&& (r matches Ok(batches) ==> ipc_stream_batch_count(b.data) == Some(
                    batches@.len() as nat,
                ))
                &&& (r matches Err(e) ==> e matches SparkError::DeserializationFailed(_))
            },
    {
        match self.data {
            Some(data) => deserialize(data),
            None => Err(SparkError::EmptyResponse),
        }
    }
}

/// Folding a response sequence with zero payload-bearing elements leaves
/// the data slot exactly as it was, however many schema or metrics blocks
/// the sequence carries.
pub proof fn lemma_no_payload_preserves_data(c: CollectorV, responses: Seq<ExecutePlanResponseV>)
    requires
        forall|i: int|
            0 <= i < responses.len() ==> !(#[trigger] responses[i].response_type matches Some(
                ResponseTypeV::ArrowBatch(_),
            )),
    ensures
        fold_collector(c, responses).data == c.data,
    decreases responses.len(),
{
    if responses.len() > 0 {
        let rest = responses.drop_first();
        assert forall|i: int|
            0 <= i < rest.len() implies !(#[trigger] rest[i].response_type matches Some(
            ResponseTypeV::ArrowBatch(_),
        )) by {
            assert(rest[i] == responses[i + 1]);
        }
        lemma_no_payload_preserves_data(collector_after(c, responses[0]), rest);
    }
}

/// A response stream with zero payload-bearing elements leaves a fresh
/// collector without data; materializing such a stream therefore yields
/// `EmptyResponse`, never an empty-but-successful batch list.
pub proof fn lemma_no_payload_yields_empty(c: CollectorV, responses: Seq<ExecutePlanResponseV>)
    requires
        c.data is None,
        forall|i: int|
            0 <= i < responses.len() ==> !(#[trigger] responses[i].response_type matches Some(
                ResponseTypeV::ArrowBatch(_),
            )),
    ensures
        fold_collector(c, responses).data is None,
{
    lemma_no_payload_preserves_data(c, responses);
}

/// Later messages supersede earlier ones: the payload the fold keeps is the
/// last one delivered, whatever came before it.
pub proof fn lemma_last_payload_wins(
    c: CollectorV,
    responses: Seq<ExecutePlanResponseV>,
    i: int,
    b: crate::protocol::ArrowBatchV,
)
    requires
        0 <= i < responses.len(),
        responses[i].response_type matches Some(ResponseTypeV::ArrowBatch(batch)) && batch == b,
        forall|j: int|
            i < j < responses.len() ==> !(#[trigger] responses[j].response_type matches Some(
                ResponseTypeV::ArrowBatch(_),
            )),
    ensures
        fold_collector(c, responses).data == Some(b),
    decreases responses.len(),
{
    let rest = responses.drop_first();
    if i == 0 {
        assert forall|j: int|
            0 <= j < rest.len() implies !(#[trigger] rest[j].response_type matches Some(
            ResponseTypeV::ArrowBatch(_),
        )) by {
            assert(rest[j] == responses[j + 1]);
        }
        lemma_no_payload_preserves_data(collector_after(c, responses[0]), rest);
    } else {
        assert forall|j: int|
            i - 1 < j < rest.len() implies !(#[trigger] rest[j].response_type matches Some(
            ResponseTypeV::ArrowBatch(_),
        )) by {
            assert(rest[j] == responses[j + 1]);
        }
        assert(rest[i - 1] == responses[i]);
        lemma_last_payload_wins(collector_after(c, responses[0]), rest, i - 1, b);
    }
}

/// One character of the canonical lowercase hexadecimal alphabet.
pub open spec fn is_lower_hex_digit(c: char) -> bool {
    ('0' <= c && c <= '9') || ('a' <= c && c <= 'f')
}

/// The canonical hyphenated identifier form companion clients use, so a
/// server can correlate sessions across clients: 36 characters, hyphens at
/// the four fixed positions, lowercase hexadecimal everywhere else.
pub open spec fn is_canonical_session_id(s: Seq<char>) -> bool {
    &&& s.len() == 36
    &&& s[8] == '-' && s[13] == '-' && s[18] == '-' && s[23] == '-'
    &&& forall|i: int|
        0 <= i < 36 && i != 8 && i != 13 && i != 18 && i != 23 ==> is_lower_hex_digit(#[trigger] s[i])
}

/// Relies on the uuid crate's version-4 generator and its hyphenated
/// lowercase display form: a freshly generated random session identifier in
/// the canonical text form. Nothing more is promised of a random value.
#[verifier::external_body]
fn new_session_id() -> (r: String)
    ensures
        is_canonical_session_id(r@),
{
    uuid::Uuid::new_v4().to_string()
}

/// The session's local identity: the identifier stamped onto every request
/// (generated once, stable for the session's lifetime) and the optional
/// caller descriptor. The transport channel itself lives outside this
/// model and serializes request issuance around it.
pub struct SessionCore {
    pub session_id: String,
    pub context: Option<Context>,
}

/// Ghost model of a `SessionCore`.
pub struct SessionCoreV {
    pub session_id: Seq<char>,
    pub context: Option<ContextV>,
}

impl View for SessionCore {
    type V = SessionCoreV;

    open spec fn view(&self) -> SessionCoreV {
        SessionCoreV { session_id: self.session_id@, context: self.context.deep_view() }
    }
}

impl DeepView for SessionCore {
    type V = SessionCoreV;

    open spec fn deep_view(&self) -> SessionCoreV {
        self.view()
    }
}

/// The wire user context a session stamps onto requests: the caller
/// descriptor minus its client-type tag, or nothing without a descriptor.
pub open spec fn user_context_spec(context: Option<ContextV>) -> Option<UserContextV> {
    match context {
        Some(c) => Some(
            UserContextV { user_id: c.user_id, user_name: c.user_name, extensions: c.extensions },
        ),
        None => None,
    }
}

/// The one request shape this client sends: the session identity, the
/// caller's client-type tag and user context when a descriptor exists, and
/// the plan to execute.
pub open spec fn request_spec(session: SessionCoreV, op_type: crate::protocol::OpTypeV)
    -> ExecutePlanRequestV {
    ExecutePlanRequestV {
        session_id: session.session_id,
        client_type: match session.context {
            Some(c) => Some(c.client_type),
            None => None,
        },
        user_context: user_context_spec(session.context),
        plan: Some(PlanMessageV { op_type: Some(op_type) }),
    }
}

/// Copies a list of extension payloads; the copy has the same view.
fn clone_extensions(v: &Vec<Extension>) -> (r: Vec<Extension>)
    ensures
        r.deep_view() == v.deep_view(),
{
    let mut out: Vec<Extension> = Vec::new();
    let mut i: usize = 0;
    while i < v.len()
        invariant
            i <= v.len(),
            out.deep_view() =~= v.deep_view().take(i as int),
        decreases v.len() - i,
    {
        let ghost prev = out.deep_view();
        let e = Extension {
            type_url: v[i].type_url.clone(),
            value: slice_to_vec(v[i].value.as_slice()),
        };
        out.push(e);
        proof {
            assert(out.deep_view() =~= prev.push(e.deep_view()));
            assert(out.deep_view() =~= v.deep_view().take(i + 1 as int));
        }
        i = i + 1;
    }
    proof {
        assert(out.deep_view() =~= v.deep_view());
    }
    out
}

impl SessionCore {
    /// Creates the session identity: a fresh random identifier in the
    /// canonical hyphenated text form, plus the caller's descriptor.
    pub fn new(context: Option<Context>) -> (s: SessionCore)
        ensures
            s@.context == context.deep_view(),
            is_canonical_session_id(s@.session_id),
    {
        SessionCore { session_id: new_session_id(), context }
    }

    /// The wire user context derived from the caller descriptor, if any.
    pub fn internal_user_context(&self) -> (r: Option<UserContext>)
        ensures
            r.deep_view() == user_context_spec(self@.context),
    {
        match &self.context {
            Some(uc) => Some(
                UserContext {
                    user_id: uc.user_id.clone(),
                    user_name: uc.user_name.clone(),
                    extensions: clone_extensions(&uc.extensions),
                },
            ),
            None => None,
        }
    }

    /// Builds the one execute request for an operation: the session
    /// identifier and optional caller context are stamped on, and the
    /// given root relation or command is wrapped as the request's plan.
    pub fn build_request(&self, op_type: OpType) -> (r: ExecutePlanRequest)
        ensures
            r@ == request_spec(self@, op_type@),
    {
        let user_context = self.internal_user_context();
        ExecutePlanRequest {
            session_id: self.session_id.clone(),
            client_type: match &self.context {
                Some(ctx) => Some(ctx.client_type.clone()),
                None => None,
            },
            user_context,
            plan: Some(PlanMessage { op_type: Some(op_type) }),
        }
    }
}

} // verus!
