use std::cell::Cell;
use std::rc::Rc;

use azure_functions::{FunctionHandler, Worker};
use azure_functions::bindings::InputBinding;
use azure_functions::custom_tracing::{CustomLayer, Level};
use azure_functions::http::HttpMethod;
use azure_functions::payload::FunctionPayload;
use azure_functions::response::{FunctionsResponse, HttpStatusCode};

fn http_payload_json(method_name: &str) -> String {
    format!(
        "{{\"Data\":{{\"req\":{{\"Url\":\"http://localhost:3000/api/x\",\"Method\":\"GET\",\"Query\":{{}},\"Headers\":{{}}}}}},\"Metadata\":{{\"sys\":{{\"MethodName\":\"{}\",\"UtcNow\":\"2024-05-01T12:30:00Z\",\"RandGuid\":\"6f1c3f0a-2f1b-4e7e-9c62-3bb1f3a2d8b1\"}}}}}}",
        method_name
    )
}

fn decode(method_name: &str) -> FunctionPayload {
    FunctionPayload::from_payload(&http_payload_json(method_name).into_bytes()).unwrap()
}

#[derive(Clone)]
struct Environment {
    marker: String,
}

enum TestHandler {
    Ping {
        calls: Rc<Cell<u32>>,
    },
    MarkerLogger,
    LogsThenFails {
        calls: Rc<Cell<u32>>,
    },
}

impl FunctionHandler<Environment> for TestHandler {
    fn call_with_state(
        &self,
        _payload: &FunctionPayload,
        state: &Environment,
        sink: &mut CustomLayer,
    ) -> Result<FunctionsResponse, String> {
        match self {
            TestHandler::Ping { calls } => {
                calls.set(calls.get() + 1);
                Ok(FunctionsResponse::http(HttpStatusCode::Okay).body("pong".to_string()))
            }
            TestHandler::MarkerLogger => {
                let fields = vec![format!("marker: {}", state.marker)];
                sink.record(Level::Info, &fields, "marker_event");
                Ok(FunctionsResponse::http(HttpStatusCode::Okay).body(state.marker.clone()))
            }
            TestHandler::LogsThenFails { calls } => {
                calls.set(calls.get() + 1);
                sink.record(Level::Info, &vec!["step: one".to_string()], "first");
                sink.record(Level::Warn, &vec!["step: two".to_string()], "second");
                Err("handler exploded".to_string())
            }
        }
    }
}

fn env() -> Environment {
    Environment {
        marker: "m".to_string(),
    }
}

#[test]
fn registered_handler_runs_once_and_its_body_is_kept() {
    let calls = Rc::new(Cell::new(0));
    let worker = Worker::new(env()).trigger(
        "Ping".to_string(),
        TestHandler::Ping {
            calls: calls.clone(),
        },
        InputBinding::http("api/ping".to_string(), vec![HttpMethod::Get]),
    );
    let response = worker.dispatch(&decode("Ping"));
    assert_eq!(calls.get(), 1);
    assert_eq!(response.outputs.res.body, "pong");
    assert!(matches!(
        response.outputs.res.status_code,
        HttpStatusCode::Okay
    ));
    assert!(response.logs.is_empty());
}

#[test]
fn ping_scenario_encodes_expected_envelope() {
    let calls = Rc::new(Cell::new(0));
    let worker = Worker::new(env()).trigger(
        "Ping".to_string(),
        TestHandler::Ping {
            calls: calls.clone(),
        },
        InputBinding::http("api/ping".to_string(), vec![HttpMethod::Get]),
    );
    let body = worker.handle_request(&http_payload_json("Ping").into_bytes());
    assert_eq!(
        body,
        "{\"Outputs\":{\"res\":{\"body\":\"pong\",\"statusCode\":\"200\",\"headers\":{}}},\"Logs\":[]}"
    );
    assert_eq!(calls.get(), 1);
}

#[test]
fn unregistered_method_gets_not_found_and_runs_no_handler() {
    let calls = Rc::new(Cell::new(0));
    let worker = Worker::new(env()).trigger(
        "Ping".to_string(),
        TestHandler::Ping {
            calls: calls.clone(),
        },
        InputBinding::http("api/ping".to_string(), vec![HttpMethod::Get]),
    );
    let response = worker.dispatch(&decode("Missing"));
    assert_eq!(calls.get(), 0);
    assert_eq!(response.outputs.res.body, "path not found");
    assert!(matches!(
        response.outputs.res.status_code,
        HttpStatusCode::NotFound
    ));
    assert!(response.logs.is_empty());
    let encoded = worker.handle_request(&http_payload_json("Missing").into_bytes());
    assert_eq!(
        encoded,
        "{\"Outputs\":{\"res\":{\"body\":\"path not found\",\"statusCode\":\"404\",\"headers\":{}}},\"Logs\":[]}"
    );
    assert_eq!(calls.get(), 0);
}

#[test]
fn malformed_body_yields_generic_envelope_with_cause_logged() {
    let worker = Worker::new(env()).trigger(
        "Ping".to_string(),
        TestHandler::Ping {
            calls: Rc::new(Cell::new(0)),
        },
        InputBinding::http("api/ping".to_string(), vec![HttpMethod::Get]),
    );
    let body = worker.handle_request(&b"{ not json".to_vec());
    assert!(body.starts_with(
        "{\"Outputs\":{\"res\":{\"body\":\"An error occurred while processing the request, check the log for a detailed error message.\",\"statusCode\":\"400\",\"headers\":{}}},\"Logs\":[\""
    ));
    assert!(body.ends_with("\"]}"));
    assert!(body.len() > 170);
}

#[test]
fn failing_handler_gets_generic_body_and_ordered_logs() {
    let calls = Rc::new(Cell::new(0));
    let worker = Worker::new(env()).trigger(
        "Boom".to_string(),
        TestHandler::LogsThenFails {
            calls: calls.clone(),
        },
        InputBinding::http("api/boom".to_string(), vec![HttpMethod::Get]),
    );
    let response = worker.dispatch(&decode("Boom"));
    assert_eq!(calls.get(), 1);
    assert_eq!(
        response.outputs.res.body,
        "An error occurred while processing the request, check the log for a detailed error message."
    );
    assert!(matches!(
        response.outputs.res.status_code,
        HttpStatusCode::BadRequest
    ));
    assert_eq!(response.logs.len(), 3);
    assert_eq!(response.logs[0], "INFO [\"step: one\"] first");
    assert_eq!(response.logs[1], "WARN [\"step: two\"] second");
    assert_eq!(response.logs[2], "handler exploded");
}

#[test]
fn concurrent_style_invocations_keep_logs_isolated() {
    // Each invocation gets its own sink, so interleaved invocations can
    // never see one another's lines: each response carries exactly its
    // own marker.
    let worker_a = Worker::new(Environment {
        marker: "marker-a".to_string(),
    })
    .trigger(
        "Mark".to_string(),
        TestHandler::MarkerLogger,
        InputBinding::http("api/mark".to_string(), vec![HttpMethod::Get]),
    );
    let worker_b = Worker::new(Environment {
        marker: "marker-b".to_string(),
    })
    .trigger(
        "Mark".to_string(),
        TestHandler::MarkerLogger,
        InputBinding::http("api/mark".to_string(), vec![HttpMethod::Get]),
    );
    let payload = decode("Mark");
    let ra = worker_a.dispatch(&payload);
    let rb = worker_b.dispatch(&payload);
    let rc = worker_a.dispatch(&payload);
    assert_eq!(ra.logs, vec!["INFO [\"marker: marker-a\"] marker_event".to_string()]);
    assert_eq!(rb.logs, vec!["INFO [\"marker: marker-b\"] marker_event".to_string()]);
    assert_eq!(rc.logs, vec!["INFO [\"marker: marker-a\"] marker_event".to_string()]);
    assert!(!ra.logs.contains(&rb.logs[0]));
    assert!(!rb.logs.contains(&ra.logs[0]));
}

#[test]
fn later_registration_replaces_earlier_one() {
    let first = Rc::new(Cell::new(0));
    let second = Rc::new(Cell::new(0));
    let worker = Worker::new(env())
        .trigger(
            "Ping".to_string(),
            TestHandler::Ping {
                calls: first.clone(),
            },
            InputBinding::http("api/ping".to_string(), vec![HttpMethod::Get]),
        )
        .trigger(
            "Ping".to_string(),
            TestHandler::LogsThenFails {
                calls: second.clone(),
            },
            InputBinding::http("api/ping".to_string(), vec![HttpMethod::Get]),
        );
    let _ = worker.dispatch(&decode("Ping"));
    assert_eq!(first.get(), 0);
    assert_eq!(second.get(), 1);
}

#[test]
fn binding_descriptors_cover_http_bindings() {
    let worker = Worker::new(env())
        .trigger(
            "Ping".to_string(),
            TestHandler::MarkerLogger,
            InputBinding::http("api/ping".to_string(), vec![HttpMethod::Get]),
        )
        .trigger(
            "Tick".to_string(),
            TestHandler::MarkerLogger,
            InputBinding::Timer(),
        );
    let descriptors = worker.binding_descriptors();
    assert_eq!(descriptors.len(), 1);
    assert_eq!(descriptors[0].0, "Ping");
    assert_eq!(
        descriptors[0].1,
        "{\"bindings\":[{\"authLevel\":\"anonymous\",\"type\":\"httpTrigger\",\"direction\":\"in\",\"route\":\"api/ping\",\"name\":\"req\",\"methods\":[\"get\",\"post\",\"patch\"]},{\"type\": \"http\",\"direction\": \"out\",\"name\": \"res\"}]}"
    );
}

#[test]
fn timer_payload_dispatches_by_its_method_name() {
    let json = "{\"Data\":{\"timer\":{\"Schedule\":{\"AdjustForDST\":true},\"ScheduleStatus\":{\"Last\":null,\"Next\":\"2024-05-01T13:00:00Z\",\"LastUpdated\":null},\"IsPastDue\":false}},\"Metadata\":{\"sys\":{\"MethodName\":\"Tick\",\"UtcNow\":\"2024-05-01T12:30:00Z\",\"RandGuid\":\"6f1c3f0a-2f1b-4e7e-9c62-3bb1f3a2d8b1\"}}}";
    let calls = Rc::new(Cell::new(0));
    let worker = Worker::new(env()).trigger(
        "Tick".to_string(),
        TestHandler::Ping {
            calls: calls.clone(),
        },
        InputBinding::Timer(),
    );
    let body = worker.handle_request(&json.as_bytes().to_vec());
    assert_eq!(
        body,
        "{\"Outputs\":{\"res\":{\"body\":\"pong\",\"statusCode\":\"200\",\"headers\":{}}},\"Logs\":[]}"
    );
    assert_eq!(calls.get(), 1);
}

#[test]
fn unmatched_shape_reaches_decode_failure_envelope() {
    let worker = Worker::new(env()).trigger(
        "Ping".to_string(),
        TestHandler::Ping {
            calls: Rc::new(Cell::new(0)),
        },
        InputBinding::http("api/ping".to_string(), vec![HttpMethod::Get]),
    );
    let body = worker.handle_request(&b"{\"hello\":\"world\"}".to_vec());
    assert_eq!(
        body,
        "{\"Outputs\":{\"res\":{\"body\":\"An error occurred while processing the request, check the log for a detailed error message.\",\"statusCode\":\"400\",\"headers\":{}}},\"Logs\":[\"data did not match any variant of untagged enum FunctionPayload\"]}"
    );
}
