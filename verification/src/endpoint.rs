//! The endpoint itself: what is read from a request, and what goes into its answer.
use crate::requester::Requester;
use crate::route_error::{InternalError, RouteError};
use crate::text::{slice_view, string_view};
use vstd::prelude::*;
use vstd::utf8::{encode_utf8, is_ascii_chars_encode_utf8};

verus! {

/// A GraphQL request, as the executor takes it.
#[verifier::external_type_specification]
#[verifier::external_body]
pub struct ExRequest(async_graphql::Request);

/// The page that `async_graphql::http::playground_source` makes for an endpoint, with one
/// setting.
pub uninterp spec fn playground_page(
    endpoint: Seq<char>,
    setting: Seq<char>,
    value: Seq<char>,
) -> Seq<char>;

/// Calls `async_graphql::http::playground_source` with a configuration of an endpoint and
/// one setting.
///
/// Taken on trust: it does not panic, and the page depends on these three strings alone.
#[verifier::external_body]
fn playground_source(endpoint: &str, setting: &str, value: &str) -> (page: String)
    ensures
        page@ == playground_page(endpoint@, setting@, value@),
{
    let config = async_graphql::http::GraphQLPlaygroundConfig::new(endpoint);
    async_graphql::http::playground_source(config.with_setting(setting, value))
}

/// Makes the page of the interactive playground, which sends the requester's cookies along.
pub fn playground() -> (page: String)
    ensures
        page@ == playground_page("/graphql"@, "request.credentials"@, "include"@),
{
    playground_source("/graphql", "request.credentials", "include")
}

/// The document of a request: its field `query`.
pub uninterp spec fn request_document(request: async_graphql::Request) -> Seq<char>;

/// The name of the operation that a request asks for: its field `operation_name`.
pub uninterp spec fn request_operation_name(request: async_graphql::Request) -> Option<Seq<char>>;

/// The variables of a request, as the JSON text of its field `variables`, in which they are
/// in the order of their names.
pub uninterp spec fn request_variables(request: async_graphql::Request) -> Seq<char>;

/// The extensions of a request, by their keys, each as the JSON text of its value in the
/// field `extensions`.
pub uninterp spec fn request_extensions(request: async_graphql::Request) -> Map<
    Seq<char>,
    Seq<char>,
>;

/// The other fields of a request are as `async_graphql::Request::new` leaves them: it has no
/// uploads and no data, nothing of it was parsed ahead, and introspection is enabled.
pub uninterp spec fn request_is_plain(request: async_graphql::Request) -> bool;

/// What a request asks for.
#[verifier::ext_equal]
pub struct RequestView {
    pub document: Seq<char>,
    pub operation_name: Option<Seq<char>>,
    pub variables: Seq<char>,
    pub extensions: Map<Seq<char>, Seq<char>>,
}

/// What a request asks for, read off its fields.
pub open spec fn request_view(request: async_graphql::Request) -> RequestView {
    RequestView {
        document: request_document(request),
        operation_name: request_operation_name(request),
        variables: request_variables(request),
        extensions: request_extensions(request),
    }
}

/// No extensions at all.
pub open spec fn no_extensions() -> Map<Seq<char>, Seq<char>> {
    Map::empty()
}

/// What a request asks for that gives nothing but an empty document.
pub open spec fn empty_request() -> RequestView {
    RequestView {
        document: ""@,
        operation_name: None,
        variables: "{}"@,
        extensions: no_extensions(),
    }
}

/// What `async_graphql::http::parse_query_string` reads from a query string: what the
/// request asks for, or what it says is wrong.
pub uninterp spec fn parsed_query(query: Seq<char>) -> Result<RequestView, Seq<char>>;

/// The view of what was read from a query string.
pub open spec fn read_view(read: Result<async_graphql::Request, String>) -> Result<
    RequestView,
    Seq<char>,
> {
    match read {
        Ok(request) => Ok(request_view(request)),
        Err(why) => Err(why@),
    }
}

/// Calls `async_graphql::http::parse_query_string`.
///
/// Taken on trust: it does not panic; the document, the operation's name, the variables and
/// the extensions of the request, and the text of the error, depend on the query string
/// alone; the request has nothing beside these; and an empty query string gives an empty
/// document and nothing else.
#[verifier::external_body]
fn parse_query_string(query: &str) -> (read: Result<async_graphql::Request, String>)
    ensures
        read_view(read) == parsed_query(query@),
        match read {
            Ok(request) => request_is_plain(request) && (query@ == ""@ ==> request_document(request)
                == ""@ && request_operation_name(request) is None && request_variables(request)
                == "{}"@ && request_extensions(request) == no_extensions()),
            Err(_) => query@ != ""@,
        },
{
    async_graphql::http::parse_query_string(query).map_err(|e| e.to_string())
}

/// Reads the fields `query` and `operation_name` of an `async_graphql::Request`.
///
/// Taken on trust: they are what the request's document and operation name stand for.
#[verifier::external_body]
fn asked_operation(request: &async_graphql::Request) -> (asked: (String, Option<String>))
    ensures
        asked.0@ == request_document(*request),
        string_view(asked.1) == request_operation_name(*request),
{
    (request.query.clone(), request.operation_name.clone())
}

/// A query string; where there is none, an empty one.
pub open spec fn query_text(query: Option<String>) -> Seq<char> {
    match query {
        Some(query) => query@,
        None => ""@,
    }
}

/// Reads the request out of a query string; where there is none, out of an empty one.
pub fn read_query(query: Option<String>) -> (read: Result<async_graphql::Request, String>)
    ensures
        read_view(read) == parsed_query(query_text(query)),
        read matches Ok(request) ==> request_is_plain(request),
        query_text(query) == ""@ ==> (read matches Ok(request) && request_view(request)
            == empty_request()),
{
    let query = match query {
        Some(query) => query,
        None => "".to_owned(),
    };
    parse_query_string(query.as_str())
}

/// The fields of the span that an operation is traced by.
pub struct OperationSpan {
    pub document: String,
    /// The name of the span, where the operation has one.
    pub span_name: Option<String>,
    pub operation_name: Option<String>,
}

/// The span of an operation that a request asks for.
pub open spec fn is_span_of(span: OperationSpan, request: async_graphql::Request) -> bool {
    &&& span.document@ == request_document(request)
    &&& string_view(span.span_name) == request_operation_name(request)
    &&& string_view(span.operation_name) == request_operation_name(request)
}

/// Makes the span of an operation: the document, and the operation's name where there is
/// one.
pub fn operation_span(document: &str, operation_name: Option<&str>) -> (span: OperationSpan)
    ensures
        span.document@ == document@,
        string_view(span.span_name) == slice_view(operation_name),
        string_view(span.operation_name) == slice_view(operation_name),
{
    let mut span = OperationSpan {
        document: document.to_owned(),
        span_name: None,
        operation_name: None,
    };
    if let Some(name) = operation_name {
        span.span_name = Some(name.to_owned());
        span.operation_name = Some(name.to_owned());
    }
    span
}

/// Makes the span of the operation that a request asks for.
pub fn span_for_graphql_request(request: &async_graphql::Request) -> (span: OperationSpan)
    ensures
        is_span_of(span, *request),
{
    let (document, operation_name) = asked_operation(request);
    let operation_name = match &operation_name {
        Some(name) => Some(name.as_str()),
        None => None,
    };
    operation_span(document.as_str(), operation_name)
}

/// The digits of a number.
pub open spec fn digits(n: nat) -> Seq<char>
    decreases n,
{
    if n < 10 {
        seq![('0' as u32 + n) as char]
    } else {
        digits(n / 10).push(('0' as u32 + n % 10) as char)
    }
}

/// How long a response may be kept, in the words of a `Cache-Control` header.
pub open spec fn cache_age(max_age: i32) -> Seq<char> {
    if max_age > 0 {
        "max-age="@ + digits(max_age as nat)
    } else if max_age == -1 {
        "no-cache"@
    } else {
        ""@
    }
}

/// The text of a `Cache-Control` header, if there is anything to say.
pub open spec fn cache_control(public: bool, max_age: i32) -> Option<Seq<char>> {
    if public && (max_age == 0 || max_age < -1) {
        None
    } else if public {
        Some(cache_age(max_age))
    } else if max_age == 0 || max_age < -1 {
        Some("private"@)
    } else {
        Some(cache_age(max_age) + ", private"@)
    }
}

/// Calls `async_graphql::CacheControl::value`.
///
/// Taken on trust: a positive age is given in seconds, and minus one stands for `no-cache`;
/// what is not public is `private`; and where neither is to be said there is no text.
#[verifier::external_body]
fn cache_control_value(public: bool, max_age: i32) -> (text: Option<String>)
    ensures
        string_view(text) == cache_control(public, max_age),
{
    async_graphql::CacheControl { public, max_age }.value()
}

/// A byte that can stand in a header.
pub open spec fn is_header_byte(b: u8) -> bool {
    b >= 32 && b != 127 || b == 9
}

/// Calls `headers::HeaderValue::from_str`, and takes the bytes of the value.
///
/// Taken on trust: the value is the text's bytes, and there is one where all of them can
/// stand in a header.
#[verifier::external_body]
fn header_value(text: &str) -> (value: Option<Vec<u8>>)
    ensures
        match value {
            Some(bytes) => bytes@ == encode_utf8(text@) && forall|i: int|
                0 <= i < bytes@.len() ==> is_header_byte(#[trigger] bytes@[i]),
            None => exists|i: int|
                0 <= i < encode_utf8(text@).len() && !is_header_byte(
                    #[trigger] encode_utf8(text@)[i],
                ),
        },
{
    let value = headers::HeaderValue::from_str(text).ok()?;
    Some(value.as_bytes().to_vec())
}

/// Every character is printable ASCII.
spec fn printable(text: Seq<char>) -> bool {
    forall|i: int| 0 <= i < text.len() ==> ' ' <= #[trigger] text[i] <= '~'
}

proof fn lemma_digits_printable(n: nat)
    ensures
        printable(digits(n)),
    decreases n,
{
    if n >= 10 {
        lemma_digits_printable(n / 10);
    }
}

/// What a `Cache-Control` header says is printable.
proof fn lemma_cache_control_printable(public: bool, max_age: i32)
    ensures
        cache_control(public, max_age) matches Some(text) ==> printable(text),
{
    reveal_strlit("max-age=");
    reveal_strlit("no-cache");
    reveal_strlit("private");
    reveal_strlit(", private");
    if max_age > 0 {
        lemma_digits_printable(max_age as nat);
    }
}

/// Printable text can stand in a header.
proof fn lemma_printable_header(text: Seq<char>)
    requires
        printable(text),
    ensures
        forall|i: int|
            0 <= i < encode_utf8(text).len() ==> is_header_byte(#[trigger] encode_utf8(text)[i]),
{
    is_ascii_chars_encode_utf8(text);
    assert forall|i: int| 0 <= i < encode_utf8(text).len() implies is_header_byte(
        #[trigger] encode_utf8(text)[i],
    ) by {
        assert(' ' <= text[i] <= '~');
    }
}

/// Makes the `Cache-Control` header of a response, if it needs one.
pub fn cache_control_header(public: bool, max_age: i32) -> (header: Option<Vec<u8>>)
    ensures
        match cache_control(public, max_age) {
            Some(text) => header matches Some(bytes) && bytes@ == encode_utf8(text),
            None => header is None,
        },
{
    match cache_control_value(public, max_age) {
        Some(text) => {
            proof {
                lemma_cache_control_printable(public, max_age);
                lemma_printable_header(text@);
            }
            header_value(text.as_str())
        },
        None => None,
    }
}

/// A request that is to be executed, for whom, and what it is traced by.
pub struct Execution {
    pub requester: Requester,
    pub request: async_graphql::Request,
    pub span: OperationSpan,
}

/// A request is executed for a requester, as it came.
pub open spec fn executes(
    execution: Execution,
    requester: Requester,
    request: async_graphql::Request,
) -> bool {
    &&& execution.requester == requester
    &&& execution.request == request
    &&& is_span_of(execution.span, request)
}

/// Puts a requester and a request together.
fn prepare(requester: Requester, request: async_graphql::Request) -> (execution: Execution)
    ensures
        executes(execution, requester, request),
{
    let span = span_for_graphql_request(&request);
    Execution { requester, request, span }
}

/// Receive the body of a `POST` request.
pub struct ReceiveBody {
    pub requester: Requester,
}

/// Decides on a `POST` request: its body is received only where the requester is not
/// refused.
pub fn post(requester: Result<Requester, RouteError>) -> (task: Result<ReceiveBody, RouteError>)
    ensures
        match requester {
            Ok(r) => task matches Ok(t) && t.requester == r,
            Err(error) => task matches Err(e) && e == error,
        },
{
    match requester {
        Ok(requester) => Ok(ReceiveBody { requester }),
        Err(error) => Err(error),
    }
}

impl ReceiveBody {
    /// Goes on with what was received: the request in the body, or why it could not be
    /// read.
    pub fn received(self, received: Result<async_graphql::Request, String>) -> (execution: Result<
        Execution,
        RouteError,
    >)
        ensures
            match received {
                Ok(request) => execution matches Ok(e) && executes(e, self.requester, request),
                Err(why) => execution matches Err(error) && error == RouteError::ParseRequest(why),
            },
    {
        match received {
            Ok(request) => Ok(prepare(self.requester, request)),
            Err(why) => Err(RouteError::ParseRequest(why)),
        }
    }
}

/// Decides on a `GET` request whose requester is known and whose query string was read.
pub fn get_read(requester: Requester, read: Result<async_graphql::Request, String>) -> (execution:
    Result<Execution, InternalError>)
    ensures
        match read {
            Ok(request) => execution matches Ok(e) && executes(e, requester, request),
            Err(why) => execution matches Err(error) && error.source == RouteError::ParseRequest(
                why,
            ),
        },
{
    match read {
        Ok(request) => Ok(prepare(requester, request)),
        Err(why) => Err(InternalError::from(RouteError::ParseRequest(why))),
    }
}

/// How a `GET` request with a query string is decided: a refused requester is refused
/// whatever it asks for; else what the query string asks for is executed, unless it cannot
/// be read. Nothing that goes wrong is explained.
pub open spec fn decides_get(
    requester: Result<Requester, RouteError>,
    query: Seq<char>,
    execution: Result<Execution, InternalError>,
) -> bool {
    match (requester, parsed_query(query)) {
        (Err(error), _) => execution matches Err(e) && e.source == error,
        (Ok(r), Ok(asked)) => {
            &&& execution matches Ok(e)
            &&& executes(e, r, e.request)
            &&& request_view(e.request) == asked
            &&& request_is_plain(e.request)
        },
        (Ok(_), Err(said)) => execution matches Err(e) && e.source matches RouteError::ParseRequest(
            why,
        ) && why@ == said,
    }
}

/// Decides on a `GET` request.
pub fn get(requester: Result<Requester, RouteError>, query: Option<String>) -> (execution: Result<
    Execution,
    InternalError,
>)
    ensures
        decides_get(requester, query_text(query), execution),
        execution matches Ok(e) ==> call_ensures(read_query, (query,), Ok(e.request)),
        requester is Ok && query_text(query) == ""@ ==> (execution matches Ok(e) && request_view(
            e.request,
        ) == empty_request()),
{
    match requester {
        Ok(requester) => get_read(requester, read_query(query)),
        Err(error) => Err(InternalError::from(error)),
    }
}

/// What can be told of an execution from outside: for whom it is, what is asked for, and
/// the span's fields; or the kind and the text of the error.
pub open spec fn execution_view(execution: Result<Execution, InternalError>) -> Result<
    (Requester, RequestView, Seq<char>, Option<Seq<char>>, Option<Seq<char>>),
    (u16, Seq<char>),
> {
    match execution {
        Ok(e) => Ok(
            (
                e.requester,
                request_view(e.request),
                e.span.document@,
                string_view(e.span.span_name),
                string_view(e.span.operation_name),
            ),
        ),
        Err(e) => Err((e.source.status(), e.source.text())),
    }
}

/// The requester and the text of the query string fix what a `GET` request comes to.
pub proof fn queries_fix_the_execution(
    requester: Result<Requester, RouteError>,
    query: Seq<char>,
    one: Result<Execution, InternalError>,
    other: Result<Execution, InternalError>,
)
    requires
        decides_get(requester, query, one),
        decides_get(requester, query, other),
    ensures
        execution_view(one) == execution_view(other),
{
}

/// A `GET` request without a query string comes to the same as one with an empty one.
pub proof fn missing_queries_are_empty(
    requester: Result<Requester, RouteError>,
    empty: String,
    without: Result<Execution, InternalError>,
    with: Result<Execution, InternalError>,
)
    requires
        empty@ == ""@,
        decides_get(requester, query_text(None), without),
        decides_get(requester, query_text(Some(empty)), with),
    ensures
        execution_view(without) == execution_view(with),
{
    queries_fix_the_execution(requester, ""@, without, with);
}

/// What is to be done with the response to an executed operation.
pub struct ResponsePlan {
    /// Mark the session in the cookie as ended.
    pub end_session: bool,
    /// The `Cache-Control` header.
    pub cache_control: Option<Vec<u8>>,
}

/// Decides what goes with the response: the cookie changes only where the operation ended
/// the session, and there is a `Cache-Control` header where there is anything to say.
pub fn plan_response(session_ended: bool, public: bool, max_age: i32) -> (plan: ResponsePlan)
    ensures
        plan.end_session == session_ended,
        match cache_control(public, max_age) {
            Some(text) => plan.cache_control matches Some(bytes) && bytes@ == encode_utf8(text),
            None => plan.cache_control is None,
        },
{
    ResponsePlan {
        end_session: session_ended,
        cache_control: cache_control_header(public, max_age),
    }
}

} // verus!
