//! The error taxonomy: a closed set of typed error kinds, and the
//! classification of raw RPC failure statuses into it. Classification is an
//! ordered, substring-based scan of the status message for known tags; a
//! message with no known tag degrades to `Generic`. This string sniffing is
//! best effort by design: the server offers no structured error channel.
use vstd::prelude::*;
use vstd::string::StringSliceAdditionalSpecFns;
use vstd::utf8::encode_utf8;

verus! {

/// Failure to establish the session's transport channel; distinct from the
/// per-call error taxonomy below and never conflated with it.
#[derive(Debug, Clone, PartialEq, Eq)]
pub struct SparkSessionCreationError(pub String);

impl SparkSessionCreationError {
    /// The text carried by this connection-time failure.
    pub fn message(&self) -> (r: String)
        ensures
            r@ == self.0@,
    {
        self.0.clone()
    }
}

/// The columnar payload could not be decoded; carries the decode diagnostic.
#[derive(Debug, Clone, Hash, PartialEq, Eq, PartialOrd, Ord)]
pub struct DeserializationError(pub String);

impl DeserializationError {
    /// The decode diagnostic carried by this failure.
    pub fn message(&self) -> (r: String)
        ensures
            r@ == self.0@,
    {
        self.0.clone()
    }
}

/// A server failure whose message matched no known tag; carries the raw
/// server message.
#[derive(Debug, Clone, PartialEq, Eq)]
pub struct GenericError(pub String);

impl GenericError {
    /// The raw server message.
    pub fn message(&self) -> (r: String)
        ensures
            r@ == self.0@,
    {
        self.0.clone()
    }
}

/// The server reported that its catalog support is not enabled.
#[derive(Debug, Clone, PartialEq, Eq)]
pub struct HiveCatalogNotEnabledError(pub String);

impl HiveCatalogNotEnabledError {
    /// A fixed description of this failure.
    pub fn message(&self) -> (r: String)
        ensures
            r@ == "Hive Catalog not enabled"@,
    {
        "Hive Catalog not enabled".to_owned()
    }
}

/// The response stream carried a response variant this client does not
/// handle; carries a description of the unhandled variant.
#[derive(Debug, Clone, PartialEq, Eq)]
pub struct NotImplementedYetError(pub String);

impl NotImplementedYetError {
    /// The description of the unhandled response variant.
    pub fn message(&self) -> (r: String)
        ensures
            r@ == self.0@,
    {
        self.0.clone()
    }
}

/// The server could not parse submitted SQL text; carries the raw server
/// message.
#[derive(Debug, Clone, PartialEq, Eq)]
pub struct ParseSyntaxError(pub String);

impl ParseSyntaxError {
    /// The raw server message.
    pub fn message(&self) -> (r: String)
        ensures
            r@ == self.0@,
    {
        self.0.clone()
    }
}

/// The server could not resolve a table or view name.
#[derive(Debug, Clone, PartialEq, Eq)]
pub struct TableOrViewNotFoundError(pub String);

impl TableOrViewNotFoundError {
    /// A fixed description of this failure.
    pub fn message(&self) -> (r: String)
        ensures
            r@ == "Table or view not found"@,
    {
        "Table or view not found".to_owned()
    }
}

/// A local state-consistency failure; carries a description of the state.
#[derive(Debug, Clone, PartialEq, Eq)]
pub struct UnexpectedError(pub String);

impl UnexpectedError {
    /// The description carried by this failure.
    pub fn message(&self) -> (r: String)
        ensures
            r@ == self.0@,
    {
        self.0.clone()
    }
}

/// The server could not resolve a column and suggested an alternative;
/// carries the raw server message.
#[derive(Debug, Clone, PartialEq, Eq)]
pub struct UnresolvedColumnWithSuggestionError(pub String);

impl UnresolvedColumnWithSuggestionError {
    /// The raw server message.
    pub fn message(&self) -> (r: String)
        ensures
            r@ == self.0@,
    {
        self.0.clone()
    }
}

/// Sum type of all errors possibly returned from remote operations.
#[derive(Debug, Clone, PartialEq, Eq)]
pub enum SparkError {
    DeserializationFailed(DeserializationError),
    EmptyResponse,
    Generic(GenericError),
    HiveCatalogNotEnabled(HiveCatalogNotEnabledError),
    InvalidSyntax(ParseSyntaxError),
    NotImplementedYet(NotImplementedYetError),
    Unexpected(UnexpectedError),
    TableOrViewNotFound(TableOrViewNotFoundError),
    UnresolvedColumnWithSuggestion(UnresolvedColumnWithSuggestionError),
}

impl SparkError {
    /// The text describing this error.
    pub fn message(&self) -> (r: String)
        ensures
            self matches SparkError::EmptyResponse ==> r@ == "Empty response"@,
            self matches SparkError::DeserializationFailed(e) ==> r@ == e.0@,
            self matches SparkError::Generic(e) ==> r@ == e.0@,
            self matches SparkError::HiveCatalogNotEnabled(_) ==> r@ == "Hive Catalog not enabled"@,
            self matches SparkError::InvalidSyntax(e) ==> r@ == e.0@,
            self matches SparkError::NotImplementedYet(e) ==> r@ == e.0@,
            self matches SparkError::Unexpected(e) ==> r@ == e.0@,
            self matches SparkError::TableOrViewNotFound(_) ==> r@ == "Table or view not found"@,
            self matches SparkError::UnresolvedColumnWithSuggestion(e) ==> r@ == e.0@,
    {
        match self {
            SparkError::DeserializationFailed(e) => e.message(),
            SparkError::EmptyResponse => "Empty response".to_owned(),
            SparkError::Generic(e) => e.message(),
            SparkError::HiveCatalogNotEnabled(e) => e.message(),
            SparkError::InvalidSyntax(e) => e.message(),
            SparkError::NotImplementedYet(e) => e.message(),
            SparkError::Unexpected(e) => e.message(),
            SparkError::TableOrViewNotFound(e) => e.message(),
            SparkError::UnresolvedColumnWithSuggestion(e) => e.message(),
        }
    }
}

/// Whether `needle` occurs contiguously somewhere inside `hay`.
pub open spec fn contains_seq(hay: Seq<u8>, needle: Seq<u8>) -> bool {
    exists|i: int|
        0 <= i <= hay.len() - needle.len() && #[trigger] hay.subrange(i, i + needle.len() as int)
            == needle
}

/// Whether `needle` occurs in `hay` starting exactly at position `i`.
fn match_at(hay: &[u8], needle: &[u8], i: usize) -> (r: bool)
    requires
        i + needle@.len() <= hay@.len(),
    ensures
        r == (hay@.subrange(i as int, i as int + needle@.len() as int) == needle@),
{
    let ghost target = hay@.subrange(i as int, i as int + needle@.len() as int);
    let hay_len = hay.len();
    let mut j: usize = 0;
    while j < needle.len()
        invariant
            i + needle@.len() <= hay@.len(),
            hay_len == hay@.len(),
            j <= needle@.len(),
            target == hay@.subrange(i as int, i as int + needle@.len() as int),
            forall|k: int| 0 <= k < j ==> hay@[i + k] == needle@[k],
        decreases needle@.len() - j,
    {
        if hay[i + j] != needle[j] {
            proof {
                assert(target[j as int] == hay@[i + j]);
                assert(target != needle@);
            }
            return false;
        }
        j = j + 1;
    }
    proof {
        assert(target =~= needle@);
    }
    true
}

/// Substring search over byte slices, the primitive the classification
/// scan is built on.
pub fn contains_subslice(hay: &[u8], needle: &[u8]) -> (r: bool)
    ensures
        r == contains_seq(hay@, needle@),
{
    if needle.len() > hay.len() {
        return false;
    }
    if needle.len() == 0 {
        proof {
            assert(hay@.subrange(0, 0 + needle@.len() as int) =~= needle@);
            assert(contains_seq(hay@, needle@));
        }
        return true;
    }
    let hay_len = hay.len();
    let last = hay_len - needle.len();
    let mut i: usize = 0;
    while i <= last
        invariant
            1 <= needle@.len() <= hay@.len(),
            hay_len == hay@.len(),
            last == hay@.len() - needle@.len(),
            i <= last + 1,
            forall|k: int|
                0 <= k < i ==> #[trigger] hay@.subrange(k, k + needle@.len() as int) != needle@,
        decreases last + 1 - i,
    {
        if match_at(hay, needle, i) {
            proof {
                assert(hay@.subrange(i as int, i as int + needle@.len() as int) == needle@);
            }
            return true;
        }
        i = i + 1;
    }
    false
}

/// The tag the server embeds when a table or view name cannot be resolved.
pub open spec fn tag_table_or_view_not_found() -> Seq<u8> {
    "[TABLE_OR_VIEW_NOT_FOUND]".spec_bytes()
}

/// The tag the server embeds when catalog support is not enabled.
pub open spec fn tag_hive_catalog_not_enabled() -> Seq<u8> {
    "[HIVE_CATALOG_NOT_ENABLED]".spec_bytes()
}

/// The tag the server embeds when SQL text fails to parse.
pub open spec fn tag_parse_syntax_error() -> Seq<u8> {
    "[PARSE_SYNTAX_ERROR]".spec_bytes()
}

/// The tag the server embeds when a column cannot be resolved but a
/// suggestion exists.
pub open spec fn tag_unresolved_column_with_suggestion() -> Seq<u8> {
    "[UNRESOLVED_COLUMN.WITH_SUGGESTION]".spec_bytes()
}

/// How a raw failure message classifies: the known tags are tried in a
/// fixed order, the first tag found as a substring wins, and a message
/// containing no known tag is `Generic`.
pub open spec fn classify_spec(m: String) -> SparkError {
    let bytes = encode_utf8(m@);
    if contains_seq(bytes, tag_table_or_view_not_found()) {
        SparkError::TableOrViewNotFound(TableOrViewNotFoundError(m))
    } else if contains_seq(bytes, tag_hive_catalog_not_enabled()) {
        SparkError::HiveCatalogNotEnabled(HiveCatalogNotEnabledError(m))
    } else if contains_seq(bytes, tag_parse_syntax_error()) {
        SparkError::InvalidSyntax(ParseSyntaxError(m))
    } else if contains_seq(bytes, tag_unresolved_column_with_suggestion()) {
        SparkError::UnresolvedColumnWithSuggestion(UnresolvedColumnWithSuggestionError(m))
    } else {
        SparkError::Generic(GenericError(m))
    }
}

impl SparkError {
    /// Classifies a raw failure message into the error taxonomy by an
    /// ordered substring scan for the known tags.
    pub fn from_status_message(message: String) -> (r: SparkError)
        ensures
            r == classify_spec(message),
    {
        proof {
            reveal_strlit("[TABLE_OR_VIEW_NOT_FOUND]");
            reveal_strlit("[HIVE_CATALOG_NOT_ENABLED]");
            reveal_strlit("[PARSE_SYNTAX_ERROR]");
            reveal_strlit("[UNRESOLVED_COLUMN.WITH_SUGGESTION]");
        }
        let bytes = message.as_str().as_bytes();
        let table = contains_subslice(bytes, "[TABLE_OR_VIEW_NOT_FOUND]".as_bytes());
        let hive = contains_subslice(bytes, "[HIVE_CATALOG_NOT_ENABLED]".as_bytes());
        let parse = contains_subslice(bytes, "[PARSE_SYNTAX_ERROR]".as_bytes());
        let unresolved = contains_subslice(
            bytes,
            "[UNRESOLVED_COLUMN.WITH_SUGGESTION]".as_bytes(),
        );
        if table {
            SparkError::TableOrViewNotFound(TableOrViewNotFoundError(message))
        } else if hive {
            SparkError::HiveCatalogNotEnabled(HiveCatalogNotEnabledError(message))
        } else if parse {
            SparkError::InvalidSyntax(ParseSyntaxError(message))
        } else if unresolved {
            SparkError::UnresolvedColumnWithSuggestion(
                UnresolvedColumnWithSuggestionError(message),
            )
        } else {
            SparkError::Generic(GenericError(message))
        }
    }

    /// Classifies a raw RPC failure status: the result is exactly the
    /// classification of the message text that status carries, so the
    /// taxonomy's locally raised kinds never come out of this path.
    pub fn from_status(status: &tonic::Status) -> (r: SparkError)
        ensures
            exists|m: String| m@ == status_message_of(*status) && r == classify_spec(m),
    {
        let message = status_message_text(status);
        let r = SparkError::from_status_message(message);
        proof {
            assert(message@ == status_message_of(*status) && r == classify_spec(message));
        }
        r
    }
}

/// Declares tonic's `Status`, the raw RPC failure the server reports, so
/// that classification can take it; the value is opaque here and only its
/// message text is read.
#[verifier::external_type_specification]
#[verifier::external_body]
pub struct ExStatus(tonic::Status);

/// The text message a failure status carries. `Status::message` is a plain
/// accessor, a function of the status alone, so its result has a name here.
pub uninterp spec fn status_message_of(s: tonic::Status) -> Seq<char>;

/// Relies on tonic's `Status::message`: the human-readable text message
/// carried by an RPC failure status.
#[verifier::external_body]
fn status_message_text(status: &tonic::Status) -> (r: String)
    ensures
        r@ == status_message_of(*status),
{
    status.message().to_owned()
}

/// A failure message containing the table-or-view-not-found tag always
/// classifies as `TableOrViewNotFound`, whatever else the message holds.
pub proof fn lemma_classify_table_or_view_not_found(m: String)
    requires
        contains_seq(encode_utf8(m@), tag_table_or_view_not_found()),
    ensures
        classify_spec(m) matches SparkError::TableOrViewNotFound(e) && e.0 == m,
{
}

/// A failure message containing no known tag always classifies as
/// `Generic`, carrying the message unchanged.
pub proof fn lemma_classify_generic(m: String)
    requires
        !contains_seq(encode_utf8(m@), tag_table_or_view_not_found()),
        !contains_seq(encode_utf8(m@), tag_hive_catalog_not_enabled()),
        !contains_seq(encode_utf8(m@), tag_parse_syntax_error()),
        !contains_seq(encode_utf8(m@), tag_unresolved_column_with_suggestion()),
    ensures
        classify_spec(m) matches SparkError::Generic(e) && e.0 == m,
{
}

} // verus!
