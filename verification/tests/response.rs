use azure_functions::custom_tracing::{CustomLayer, Level};
use azure_functions::http::{DataRequest, HttpMethod};
use azure_functions::response::{FunctionsResponse, HttpStatusCode};
use azure_functions::triggers::{Trigger, http::HttpTriggerParams};
use azure_functions::bindings::http::HttpBindingParams;

#[test]
fn default_response_is_bad_request_with_empty_body() {
    let response = FunctionsResponse::default();
    assert_eq!(response.outputs.res.body, "");
    assert!(matches!(
        response.outputs.res.status_code,
        HttpStatusCode::BadRequest
    ));
    assert!(response.outputs.res.headers.is_empty());
    assert!(response.logs.is_empty());
}

#[test]
fn http_builder_sets_status() {
    let response = FunctionsResponse::http(HttpStatusCode::Unauthorized);
    assert!(matches!(
        response.outputs.res.status_code,
        HttpStatusCode::Unauthorized
    ));
    assert_eq!(response.encode(), "{\"Outputs\":{\"res\":{\"body\":\"\",\"statusCode\":\"401\",\"headers\":{}}},\"Logs\":[]}");
}

#[test]
fn redirect_sets_location_header_and_found_status() {
    let response = FunctionsResponse::redirect("/login".to_string());
    assert!(matches!(
        response.outputs.res.status_code,
        HttpStatusCode::Found
    ));
    assert_eq!(response.outputs.res.headers.len(), 1);
    assert_eq!(response.outputs.res.headers[0].0, "Location");
    assert_eq!(response.outputs.res.headers[0].1, "/login");
}

#[test]
fn body_html_sets_content_type() {
    let response = FunctionsResponse::http(HttpStatusCode::Okay)
        .body_html("<p>hi</p>".to_string());
    assert_eq!(response.outputs.res.body, "<p>hi</p>");
    assert_eq!(response.outputs.res.headers.len(), 1);
    assert_eq!(response.outputs.res.headers[0].0, "Content-Type");
    assert_eq!(response.outputs.res.headers[0].1, "text/html");
}

#[test]
fn insert_header_replaces_existing_value() {
    let mut response = FunctionsResponse::default();
    response
        .outputs
        .res
        .insert_header("X-A".to_string(), "1".to_string());
    response
        .outputs
        .res
        .insert_header("X-B".to_string(), "2".to_string());
    response
        .outputs
        .res
        .insert_header("X-A".to_string(), "3".to_string());
    assert_eq!(response.outputs.res.headers.len(), 2);
    assert_eq!(response.outputs.res.headers[0].0, "X-A");
    assert_eq!(response.outputs.res.headers[0].1, "3");
    assert_eq!(response.outputs.res.headers[1].0, "X-B");
    assert_eq!(response.outputs.res.headers[1].1, "2");
}

#[test]
fn status_codes_serialize_as_numeric_strings() {
    assert_eq!(HttpStatusCode::Okay.digits(), "200");
    assert_eq!(HttpStatusCode::Found.digits(), "302");
    assert_eq!(HttpStatusCode::BadRequest.digits(), "400");
    assert_eq!(HttpStatusCode::Unauthorized.digits(), "401");
    assert_eq!(HttpStatusCode::NotFound.digits(), "404");
}

#[test]
fn sink_keeps_events_in_order_and_filters_by_level() {
    let mut sink = CustomLayer::new(Level::Info);
    sink.record(Level::Error, &vec!["e: 1".to_string()], "first");
    sink.record(Level::Debug, &vec!["d: 2".to_string()], "dropped");
    sink.record(
        Level::Info,
        &vec!["a: 1".to_string(), "b: 2".to_string()],
        "second",
    );
    let events = sink.get();
    assert_eq!(events.len(), 2);
    assert_eq!(events[0], "ERROR [\"e: 1\"] first");
    assert_eq!(events[1], "INFO [\"a: 1\", \"b: 2\"] second");
}

#[test]
fn sink_with_no_events_drains_empty() {
    let sink = CustomLayer::new(Level::Trace);
    assert!(sink.get().is_empty());
}

#[test]
fn two_sinks_do_not_share_events() {
    let mut one = CustomLayer::new(Level::Info);
    let mut two = CustomLayer::new(Level::Info);
    one.record(Level::Info, &vec!["m: one".to_string()], "one_event");
    two.record(Level::Info, &vec!["m: two".to_string()], "two_event");
    one.record(Level::Info, &vec!["m: one-more".to_string()], "one_event");
    assert_eq!(one.get().len(), 2);
    assert_eq!(two.get(), vec!["INFO [\"m: two\"] two_event".to_string()]);
}

#[test]
fn user_id_and_user_name_read_headers_case_insensitively() {
    let request = DataRequest {
        url: "http://localhost/api/x".to_string(),
        method: HttpMethod::Get,
        query: vec![],
        headers: vec![
            (
                "X-MS-CLIENT-PRINCIPAL-ID".to_string(),
                vec!["user-17".to_string()],
            ),
            (
                "x-ms-client-principal-name".to_string(),
                vec!["pat".to_string()],
            ),
        ],
        body: None,
    };
    assert_eq!(request.user_id().as_deref(), Some("user-17"));
    assert_eq!(request.user_name().as_deref(), Some("pat"));
}

#[test]
fn user_id_is_none_when_header_absent_or_empty() {
    let request = DataRequest {
        url: "http://localhost/api/x".to_string(),
        method: HttpMethod::Get,
        query: vec![],
        headers: vec![("x-ms-client-principal-id".to_string(), vec![])],
        body: None,
    };
    assert!(request.user_id().is_none());
    assert!(request.user_name().is_none());
}

#[test]
fn binding_and_trigger_builders_keep_their_parameters() {
    let binding = HttpBindingParams::new("api/z".to_string(), vec![HttpMethod::Get, HttpMethod::Post]);
    assert_eq!(binding.route, "api/z");
    assert_eq!(binding.methods.len(), 2);
    let trigger = Trigger::http("api/z".to_string(), vec![HttpMethod::Get]);
    let Trigger::Http(params) = trigger else {
        panic!("expected the HTTP trigger variant");
    };
    assert_eq!(params.route, "api/z");
    let direct = HttpTriggerParams::new("api/w".to_string(), vec![]);
    assert_eq!(direct.route, "api/w");
}
