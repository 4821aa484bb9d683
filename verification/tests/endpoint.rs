use mas_graphql::endpoint::{
    cache_control_header, get, get_read, operation_span, plan_response, playground, post,
    read_query, span_for_graphql_request,
};
use mas_graphql::identity::RequestingEntity;
use mas_graphql::requester::Requester;
use mas_graphql::route_error::RouteError;

fn requester() -> Requester {
    Requester {
        entity: RequestingEntity::Anonymous,
        ip_address: None,
        user_agent: Some("me".to_owned()),
    }
}

fn request(document: &str, name: Option<&str>) -> async_graphql::Request {
    let request = async_graphql::Request::new(document);
    match name {
        Some(name) => request.operation_name(name),
        None => request,
    }
}

fn header(public: bool, max_age: i32) -> Option<String> {
    cache_control_header(public, max_age).map(|bytes| String::from_utf8(bytes).unwrap())
}

#[test]
fn cache_control_is_put_in_words() {
    let own = |s: &str| Some(s.to_owned());
    assert_eq!(header(true, 0), None);
    assert_eq!(header(true, -2), None);
    assert_eq!(header(true, i32::MIN), None);
    assert_eq!(header(false, 0), own("private"));
    assert_eq!(header(false, -2), own("private"));
    assert_eq!(header(true, 7), own("max-age=7"));
    assert_eq!(header(true, 10), own("max-age=10"));
    assert_eq!(header(false, 3600), own("max-age=3600, private"));
    assert_eq!(header(true, i32::MAX), own("max-age=2147483647"));
    assert_eq!(header(true, -1), own("no-cache"));
    assert_eq!(header(false, -1), own("no-cache, private"));
}

#[test]
fn response_is_planned() {
    let plan = plan_response(true, true, 0);
    assert!(plan.end_session);
    assert_eq!(plan.cache_control, None);
    let plan = plan_response(false, false, 0);
    assert!(!plan.end_session);
    assert_eq!(plan.cache_control, Some(b"private".to_vec()));
}

#[test]
fn playground_page_names_the_endpoint() {
    let page = playground();
    assert!(page.contains("<html>"));
    assert!(page.contains("\"endpoint\":\"/graphql\""));
    assert!(page.contains("\"settings\":{\"request.credentials\":\"include\"}"));
}

#[test]
fn query_strings_are_read() {
    let read = read_query(Some("query=%7Ba%7D&operation_name=A".to_owned()))
        .unwrap_or_else(|why| panic!("{why}"));
    assert_eq!(read.query, "{a}");
    assert_eq!(read.operation_name.as_deref(), Some("A"));
    assert!(read.variables.is_empty());
    assert!(read.extensions.is_empty());
    assert!(read.uploads.is_empty());

    let Err(why) = read_query(Some("query={a}&variables=nonsense".to_owned())) else {
        panic!("read");
    };
    assert!(why.starts_with("invalid variables: "));
    let Err(why) = read_query(Some("query={a}&extensions=nonsense".to_owned())) else {
        panic!("read");
    };
    assert!(why.starts_with("invalid extensions: "));
}

/// `query={a}&variables={"y":[true],"x":1}&extensions={"k":"v"}`
const FULL: &str = "query=%7Ba%7D&variables=%7B%22y%22%3A%5Btrue%5D%2C%22x%22%3A1%7D\
    &extensions=%7B%22k%22%3A%22v%22%7D";

fn assert_full(request: &async_graphql::Request) {
    assert_eq!(request.query, "{a}");
    assert_eq!(request.operation_name, None);
    assert_eq!(
        serde_json::to_string(&request.variables).unwrap(),
        "{\"x\":1,\"y\":[true]}"
    );
    assert_eq!(
        serde_json::to_string(&request.extensions).unwrap(),
        "{\"k\":\"v\"}"
    );
    assert!(request.uploads.is_empty());
    assert_eq!(
        request.introspection_mode,
        async_graphql::IntrospectionMode::Enabled
    );
}

#[test]
fn variables_reach_the_request() {
    let read = read_query(Some(FULL.to_owned())).unwrap_or_else(|why| panic!("{why}"));
    assert_full(&read);
    let Ok(execution) = get(Ok(requester()), Some(FULL.to_owned())) else {
        panic!("refused");
    };
    assert_full(&execution.request);
    assert_eq!(execution.span.document, "{a}");
}

#[test]
fn missing_query_is_an_empty_one() {
    for query in [None, Some(String::new())] {
        let read = read_query(query.clone()).unwrap_or_else(|why| panic!("{why}"));
        let Ok(execution) = get(Ok(requester()), query) else {
            panic!("refused");
        };
        for request in [read, execution.request] {
            assert_eq!(request.query, "");
            assert_eq!(request.operation_name, None);
            assert_eq!(serde_json::to_string(&request.variables).unwrap(), "{}");
            assert!(request.extensions.is_empty());
            assert!(request.uploads.is_empty());
        }
        assert_eq!(execution.span.document, "");
        assert_eq!(execution.span.span_name, None);
        assert_eq!(execution.span.operation_name, None);
    }
}

#[test]
fn post_executes_what_was_received() {
    let Ok(task) = post(Ok(requester())) else {
        panic!("refused");
    };
    let Ok(execution) = task.received(Ok(request("{a}", Some("A")))) else {
        panic!("refused");
    };
    assert_eq!(execution.requester.user_agent.as_deref(), Some("me"));
    assert_eq!(execution.request.query, "{a}");
    assert_eq!(execution.span.document, "{a}");
    assert_eq!(execution.span.span_name.as_deref(), Some("A"));
    assert_eq!(execution.span.operation_name.as_deref(), Some("A"));
}

#[test]
fn post_explains_what_it_cannot_read() {
    let Ok(task) = post(Ok(requester())) else {
        panic!("refused");
    };
    let Err(error) = task.received(Err("bad".to_owned())) else {
        panic!("executed");
    };
    assert_eq!(error, RouteError::ParseRequest("bad".to_owned()));
    assert_eq!(error.into_response().status, 400);
}

#[test]
fn post_refuses_before_the_body_is_received() {
    for error in [RouteError::InvalidToken, RouteError::MissingScope, RouteError::LoadFailed] {
        let Err(refused) = post(Err(error.clone())) else {
            panic!("admitted");
        };
        assert_eq!(refused, error);
    }
}

#[test]
fn get_executes_the_query() {
    let Ok(execution) = get(Ok(requester()), Some("query={b}".to_owned())) else {
        panic!("refused");
    };
    assert_eq!(execution.request.query, "{b}");
    assert_eq!(execution.request.operation_name, None);
    assert_eq!(execution.span.span_name, None);
    let Ok(execution) = get(Ok(requester()), None) else {
        panic!("refused");
    };
    assert_eq!(execution.request.query, "");
}

#[test]
fn get_does_not_explain() {
    let Err(error) = get(Err(RouteError::InvalidToken), Some("query={b}".to_owned())) else {
        panic!("executed");
    };
    assert_eq!(error.source, RouteError::InvalidToken);
    let Err(error) = get(Ok(requester()), Some("variables=x".to_owned())) else {
        panic!("executed");
    };
    assert!(matches!(error.source, RouteError::ParseRequest(_)));
    let Err(error) = get_read(requester(), Err("why".to_owned())) else {
        panic!("executed");
    };
    assert_eq!(error.source, RouteError::ParseRequest("why".to_owned()));
}

#[test]
fn spans_carry_the_operation_name() {
    let span = span_for_graphql_request(&request("{a}", None));
    assert_eq!(span.document, "{a}");
    assert_eq!(span.span_name, None);
    assert_eq!(span.operation_name, None);
    let span = span_for_graphql_request(&request("{a}", Some("A")));
    assert_eq!(span.document, "{a}");
    assert_eq!(span.span_name.as_deref(), Some("A"));
    assert_eq!(span.operation_name.as_deref(), Some("A"));
    let span = operation_span("{b}", Some("B"));
    assert_eq!(span.document, "{b}");
    assert_eq!(span.span_name.as_deref(), Some("B"));
    assert_eq!(span.operation_name.as_deref(), Some("B"));
}
