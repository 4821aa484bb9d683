//! What the endpoint executes, traces and answers.
use crate::endpoint::{
    cache_control, cache_control_header, digits, get, get_read, operation_span, parsed_query,
    plan_response, playground, playground_page, post, read_query, request_document,
    request_extensions, request_is_plain, request_operation_name, request_variables, request_view,
    span_for_graphql_request, Execution, OperationSpan, ReceiveBody, RequestView, ResponsePlan,
};
use crate::requester::{IpAddress, PolicyRequester, Requester, RequesterFingerprint};
use crate::route_error::{ErrorResponse, InternalError, RouteError};
use crate::text_laws::shows;
use vstd::prelude::*;
use vstd::utf8::encode_utf8;

verus! {

/// The number that a row of digits stands for.
pub open spec fn value_of(ds: Seq<char>) -> int
    decreases ds.len(),
{
    if ds.len() == 0 {
        0
    } else {
        10 * value_of(ds.drop_last()) + (ds.last() as int - '0' as int)
    }
}

/// Digits, without a zero in front that could be left out.
pub open spec fn is_decimal(ds: Seq<char>) -> bool {
    &&& ds.len() > 0
    &&& forall|k: int| 0 <= k < ds.len() ==> '0' <= #[trigger] ds[k] <= '9'
    &&& ds.len() > 1 ==> ds[0] != '0'
}

/// The bytes of a header are those of `text`.
pub open spec fn reads(header: Option<Vec<u8>>, text: Seq<char>) -> bool {
    header matches Some(bytes) && bytes@ == encode_utf8(text)
}

/// The request asks for this, and for nothing beside.
pub open spec fn asks_for(request: async_graphql::Request, asked: RequestView) -> bool {
    &&& request_document(request) == asked.document
    &&& request_operation_name(request) == asked.operation_name
    &&& request_variables(request) == asked.variables
    &&& request_extensions(request) == asked.extensions
}

/// The span carries the document, and the operation's name twice: as its own and beside it.
pub open spec fn traces(span: OperationSpan, document: Seq<char>, name: Option<Seq<char>>) -> bool {
    &&& span.document@ == document
    &&& shows(span.span_name, name)
    &&& shows(span.operation_name, name)
}

/// A request is executed as it came, for the requester, and traced by its own operation.
pub open spec fn carries_out(
    execution: Execution,
    requester: Requester,
    request: async_graphql::Request,
) -> bool {
    &&& execution.requester == requester
    &&& execution.request == request
    &&& traces(execution.span, request_document(request), request_operation_name(request))
}

/// A number is written in its own digits.
proof fn lemma_digits(n: nat)
    ensures
        is_decimal(digits(n)),
        value_of(digits(n)) == n,
        n > 0 ==> digits(n)[0] != '0',
    decreases n,
{
    if n < 10 {
        let ds = digits(n);
        assert(ds.drop_last() =~= Seq::<char>::empty());
        assert(value_of(ds.drop_last()) == 0);
        assert(ds.last() == ('0' as u32 + n) as char);
        assert(value_of(ds) == n);
    } else {
        lemma_digits(n / 10);
        let front = digits(n / 10);
        let ds = digits(n);
        assert(ds == front.push(('0' as u32 + n % 10) as char));
        assert(ds.drop_last() =~= front);
        assert(ds[0] == front[0]);
        assert forall|k: int| 0 <= k < ds.len() implies '0' <= #[trigger] ds[k] <= '9' by {
            if k < front.len() {
                assert(ds[k] == front[k]);
            }
        }
    }
}

/// A positive age is given in its own digits, and minus one stands for `no-cache`; where
/// there is neither, a public response has no header. A private one has the same words as a
/// public one, and then `private`.
pub proof fn ages_are_put_in_words(public: bool, max_age: i32, header: Option<Vec<u8>>)
    requires
        call_ensures(cache_control_header, (public, max_age), header),
    ensures
        max_age > 0 ==> exists|ds: Seq<char>| #[trigger]
            is_decimal(ds) && value_of(ds) == max_age && (if public {
                reads(header, "max-age="@ + ds)
            } else {
                reads(header, "max-age="@ + ds + ", private"@)
            }),
        max_age == -1 && public ==> reads(header, "no-cache"@),
        max_age == -1 && !public ==> reads(header, "no-cache"@ + ", private"@),
        (max_age == 0 || max_age < -1) && public ==> header is None,
        (max_age == 0 || max_age < -1) && !public ==> reads(header, "private"@),
{
    if max_age > 0 {
        let ds = digits(max_age as nat);
        lemma_digits(max_age as nat);
        assert(is_decimal(ds) && value_of(ds) == max_age);
        assert(cache_control(public, max_age) is Some);
    }
}

/// The plan for a response ends the session exactly where the operation did, and carries
/// the same header as the cache settings give by themselves.
pub proof fn plans_carry_the_header(
    session_ended: bool,
    public: bool,
    max_age: i32,
    plan: ResponsePlan,
    header: Option<Vec<u8>>,
)
    requires
        call_ensures(plan_response, (session_ended, public, max_age), plan),
        call_ensures(cache_control_header, (public, max_age), header),
    ensures
        plan.end_session == session_ended,
        plan.cache_control is Some <==> header is Some,
        plan.cache_control matches Some(bytes) ==> header matches Some(own) && bytes@ == own@,
{
}

/// The playground is made for this endpoint, and sends the cookies along.
pub proof fn the_playground_is_for_this_endpoint(page: String)
    requires
        call_ensures(playground, (), page),
    ensures
        page@ == playground_page("/graphql"@, "request.credentials"@, "include"@),
{
}

/// What a query string asks for is what is read from it, all of it and nothing else, and
/// what is wrong with it is what is said; no query string is an empty one.
pub proof fn queries_are_read(
    text: String,
    a: Result<async_graphql::Request, String>,
    b: Result<async_graphql::Request, String>,
)
    requires
        call_ensures(read_query, (Some(text),), a),
        call_ensures(read_query, (None,), b),
    ensures
        match (a, parsed_query(text@)) {
            (Ok(request), Ok(asked)) => asks_for(request, asked) && request_is_plain(request),
            (Err(why), Err(said)) => why@ == said,
            _ => false,
        },
        b matches Ok(request) && request_is_plain(request) && asks_for(
            request,
            RequestView {
                document: ""@,
                operation_name: None,
                variables: "{}"@,
                extensions: Map::empty(),
            },
        ),
        text@ == ""@ ==> (a matches Ok(request) && b matches Ok(other) && request_view(request)
            == request_view(other)),
{
    if let Ok(request) = a {
        assert(parsed_query(text@) == Ok::<RequestView, Seq<char>>(request_view(request)));
    }
    if let Ok(request) = b {
        assert(request_view(request).extensions == Map::<Seq<char>, Seq<char>>::empty());
    }
}

/// An operation is traced by its document and its name, where it has one.
pub proof fn operations_are_traced(
    document: &str,
    name: Option<&str>,
    request: async_graphql::Request,
    one: OperationSpan,
    other: OperationSpan,
)
    requires
        call_ensures(operation_span, (document, name), one),
        call_ensures(span_for_graphql_request, (&request,), other),
    ensures
        one.document@ == document@,
        match name {
            Some(n) => shows(one.span_name, Some(n@)) && shows(one.operation_name, Some(n@)),
            None => one.span_name is None && one.operation_name is None,
        },
        traces(other, request_document(request), request_operation_name(request)),
{
}

/// The body of a `POST` request is received for the requester who sent it, and for nobody
/// who was refused; the refusal comes back as it is.
pub proof fn bodies_are_received_for_the_requester(
    requester: Requester,
    error: RouteError,
    a: Result<ReceiveBody, RouteError>,
    b: Result<ReceiveBody, RouteError>,
)
    requires
        call_ensures(post, (Ok(requester),), a),
        call_ensures(post, (Err(error),), b),
    ensures
        a matches Ok(task) && task.requester == requester,
        b matches Err(e) && e == error,
{
}

/// The request that was received is carried out for the requester, and one that could not
/// be read is answered with why.
pub proof fn received_requests_are_carried_out(
    task: ReceiveBody,
    request: async_graphql::Request,
    why: String,
    a: Result<Execution, RouteError>,
    b: Result<Execution, RouteError>,
)
    requires
        call_ensures(ReceiveBody::received, (task, Ok(request)), a),
        call_ensures(ReceiveBody::received, (task, Err(why)), b),
    ensures
        a matches Ok(e) && carries_out(e, task.requester, request),
        b matches Err(e) && e == RouteError::ParseRequest(why),
{
}

/// The request that was read from a query string is carried out for the requester, and one
/// that could not be read is not.
pub proof fn read_requests_are_carried_out(
    requester: Requester,
    request: async_graphql::Request,
    why: String,
    a: Result<Execution, InternalError>,
    b: Result<Execution, InternalError>,
)
    requires
        call_ensures(get_read, (requester, Ok(request)), a),
        call_ensures(get_read, (requester, Err(why)), b),
    ensures
        a matches Ok(e) && carries_out(e, requester, request),
        b matches Err(e) && e.source == RouteError::ParseRequest(why),
{
}

/// A `GET` request comes to what its own query string asks for, for the requester who sent
/// it; one without a query string to an empty document.
pub proof fn queries_are_carried_out(
    requester: Requester,
    text: String,
    a: Result<Execution, InternalError>,
    b: Result<Execution, InternalError>,
)
    requires
        call_ensures(get, (Ok(requester), Some(text)), a),
        call_ensures(get, (Ok(requester), None), b),
    ensures
        match (a, parsed_query(text@)) {
            (Ok(e), Ok(asked)) => carries_out(e, requester, e.request) && asks_for(
                e.request,
                asked,
            ) && request_is_plain(e.request),
            (Err(e), Err(said)) => e.source matches RouteError::ParseRequest(why) && why@ == said,
            _ => false,
        },
        b matches Ok(e) && carries_out(e, requester, e.request) && request_is_plain(e.request)
            && asks_for(
            e.request,
            RequestView {
                document: ""@,
                operation_name: None,
                variables: "{}"@,
                extensions: Map::empty(),
            },
        ),
{
    if let Ok(e) = a {
        assert(parsed_query(text@) == Ok::<RequestView, Seq<char>>(request_view(e.request)));
    }
    if let Ok(e) = b {
        assert(request_view(e.request).extensions == Map::<Seq<char>, Seq<char>>::empty());
    }
}

/// A refused `GET` request is refused for the same reason, whatever it asks for.
pub proof fn refusals_come_before_queries(
    error: RouteError,
    query: Option<String>,
    execution: Result<Execution, InternalError>,
)
    requires
        call_ensures(get, (Err(error), query), execution),
    ensures
        execution matches Err(e) && e.source == error,
{
}

/// Only what is wrong with the token, or with the request, is the requester's fault. What is
/// wrong with a token is said in the endpoint's words, and all else in the error's own.
pub proof fn errors_are_answered_by_whose_fault_they_are(
    error: RouteError,
    response: ErrorResponse,
    text: String,
)
    requires
        call_ensures(RouteError::into_response, (error,), response),
        call_ensures(RouteError::display, (&error,), text),
    ensures
        response.status == 401 <==> error is InvalidToken || error is MissingScope,
        response.status == 400 <==> error is ParseRequest,
        response.status == 500 <==> error is Internal || error is LoadFailed,
        error is InvalidToken ==> response.message@ == "Invalid token"@,
        error is MissingScope ==> response.message@ == "Missing urn:mas:graphql:* scope"@,
        response.status != 401 ==> response.message@ == text@,
        error matches RouteError::Internal(what) ==> text@ == what@,
        error matches RouteError::ParseRequest(why) ==> text@ == why@,
        error is LoadFailed ==> text@ == "Loading of some database objects failed"@,
        error is InvalidToken ==> text@ == "Invalid access token"@,
        error is MissingScope ==> text@ == "Missing scope"@,
{
}

/// An error that is not explained keeps its source.
pub proof fn sources_are_kept(source: RouteError, error: InternalError)
    requires
        call_ensures(<InternalError as From<RouteError>>::from, (source,), error),
    ensures
        error.source == source,
{
}

/// Requests are counted by the address that they came from, and by nothing else: two
/// requesters have the same fingerprint exactly where they have the same address, or none.
pub proof fn fingerprints_are_addresses(
    one: Requester,
    other: Requester,
    a: RequesterFingerprint,
    b: RequesterFingerprint,
    ip: IpAddress,
    known: RequesterFingerprint,
    unknown: RequesterFingerprint,
)
    requires
        call_ensures(Requester::fingerprint, (&one,), a),
        call_ensures(Requester::fingerprint, (&other,), b),
        call_ensures(RequesterFingerprint::new, (ip,), known),
        call_ensures(RequesterFingerprint::empty, (), unknown),
    ensures
        a == b <==> one.ip_address == other.ip_address,
        a == known <==> one.ip_address == Some(ip),
        a == unknown <==> one.ip_address is None,
{
}

/// A policy is told the address and the user agent that the request came with, and the
/// requester stands for its own identity.
pub proof fn policies_are_told_the_origin(
    requester: Requester,
    told: PolicyRequester,
    entity: &crate::identity::RequestingEntity,
)
    requires
        call_ensures(Requester::for_policy, (&requester,), told),
        call_ensures(<Requester as std::ops::Deref>::deref, (&requester,), entity),
    ensures
        told.ip_address == requester.ip_address,
        match requester.user_agent {
            Some(agent) => shows(told.user_agent, Some(agent@)),
            None => told.user_agent is None,
        },
        *entity == requester.entity,
{
}

} // verus!
