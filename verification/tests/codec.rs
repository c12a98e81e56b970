use azure_functions::payload::{FromPayload, FunctionPayload};
use azure_functions::http::{HttpMethod, HttpPayload};
use azure_functions::response::{FunctionsResponse, HttpStatusCode};

fn http_payload_json(method_name: &str) -> String {
    format!(
        "{{\"Data\":{{\"req\":{{\"Url\":\"http://localhost:3000/api/x\",\"Method\":\"GET\",\"Query\":{{}},\"Headers\":{{}}}}}},\"Metadata\":{{\"sys\":{{\"MethodName\":\"{}\",\"UtcNow\":\"2024-05-01T12:30:00Z\",\"RandGuid\":\"6f1c3f0a-2f1b-4e7e-9c62-3bb1f3a2d8b1\"}}}}}}",
        method_name
    )
}

#[test]
fn decodes_minimal_http_payload() {
    let bytes = http_payload_json("Ping").into_bytes();
    let payload = FunctionPayload::from_payload(&bytes).unwrap();
    assert_eq!(payload.method_name(), "Ping");
    match payload {
        FunctionPayload::HttpData(p) => {
            assert_eq!(p.metadata.sys.method_name, "Ping");
            assert_eq!(p.metadata.sys.utc_now, "2024-05-01T12:30:00Z");
            assert_eq!(p.metadata.sys.rand_guid, "6f1c3f0a-2f1b-4e7e-9c62-3bb1f3a2d8b1");
            assert_eq!(p.data.req.url, "http://localhost:3000/api/x");
            assert!(matches!(p.data.req.method, HttpMethod::Get));
            assert!(p.data.req.query.is_empty());
            assert!(p.data.req.headers.is_empty());
            assert!(p.data.req.body.is_none());
            assert!(p.data.inputs.is_empty());
        }
        _ => panic!("expected the HTTP variant"),
    }
}

#[test]
fn decodes_http_payload_with_fields() {
    let json = "{\"Data\":{\"req\":{\"Url\":\"https://example.com/api/y?a=1\",\"Method\":\"POST\",\"Query\":{\"a\":\"1\",\"b\":\"two\"},\"Headers\":{\"Content-Type\":[\"text/plain\"],\"X-Two\":[\"1\",\"2\"]},\"Body\":\"hello\"},\"extra\":\"blob-data\"},\"Metadata\":{\"sys\":{\"MethodName\":\"Post\",\"UtcNow\":\"2024-05-01T12:30:00+02:00\",\"RandGuid\":\"6f1c3f0a2f1b4e7e9c623bb1f3a2d8b1\"}}}";
    let payload = FunctionPayload::from_payload(&json.as_bytes().to_vec()).unwrap();
    match payload {
        FunctionPayload::HttpData(p) => {
            assert!(matches!(p.data.req.method, HttpMethod::Post));
            assert_eq!(p.data.req.body.as_deref(), Some("hello"));
            assert_eq!(p.data.req.query.len(), 2);
            assert_eq!(p.data.req.headers.len(), 2);
            assert_eq!(p.data.inputs.len(), 1);
            let (name, binding) = &p.data.inputs[0];
            assert_eq!(name, "extra");
            let azure_functions::payload::InputBinding::Blob(value) = binding;
            assert_eq!(value, "blob-data");
        }
        _ => panic!("expected the HTTP variant"),
    }
}

#[test]
fn malformed_json_is_refused_with_cause() {
    let bytes = b"{ not json".to_vec();
    let err = match FunctionPayload::from_payload(&bytes) {
        Err(e) => e,
        Ok(_) => panic!("expected a decode failure"),
    };
    assert!(!err.message.is_empty());
}

#[test]
fn unmatched_shape_is_refused_with_fixed_cause() {
    let bytes = b"{\"hello\":\"world\"}".to_vec();
    let err = match FunctionPayload::from_payload(&bytes) {
        Err(e) => e,
        Ok(_) => panic!("expected a decode failure"),
    };
    assert_eq!(
        err.message,
        "data did not match any variant of untagged enum FunctionPayload"
    );
}

#[test]
fn bad_timestamp_refuses_whole_payload() {
    let json = http_payload_json("Ping").replace("2024-05-01T12:30:00Z", "yesterday");
    let err = match FunctionPayload::from_payload(&json.into_bytes()) {
        Err(e) => e,
        Ok(_) => panic!("expected a decode failure"),
    };
    assert_eq!(
        err.message,
        "data did not match any variant of untagged enum FunctionPayload"
    );
}

#[test]
fn bad_guid_refuses_whole_payload() {
    let json = http_payload_json("Ping").replace("6f1c3f0a-2f1b-4e7e-9c62-3bb1f3a2d8b1", "not-a-guid");
    assert!(FunctionPayload::from_payload(&json.into_bytes()).is_err());
}

#[test]
fn bad_url_refuses_whole_payload() {
    let json = http_payload_json("Ping").replace("http://localhost:3000/api/x", "::not a url::");
    assert!(FunctionPayload::from_payload(&json.into_bytes()).is_err());
}

#[test]
fn bad_method_refuses_whole_payload() {
    let json = http_payload_json("Ping").replace("\"GET\"", "\"FETCH\"");
    assert!(FunctionPayload::from_payload(&json.into_bytes()).is_err());
}

#[test]
fn lowercase_method_is_refused() {
    let json = http_payload_json("Ping").replace("\"GET\"", "\"get\"");
    assert!(FunctionPayload::from_payload(&json.into_bytes()).is_err());
}

#[test]
fn non_string_query_value_refuses_payload() {
    let json = http_payload_json("Ping").replace("\"Query\":{}", "\"Query\":{\"n\":7}");
    assert!(FunctionPayload::from_payload(&json.into_bytes()).is_err());
}

#[test]
fn bad_header_name_refuses_payload() {
    let json =
        http_payload_json("Ping").replace("\"Headers\":{}", "\"Headers\":{\"bad name\":[\"v\"]}");
    assert!(FunctionPayload::from_payload(&json.into_bytes()).is_err());
}

#[test]
fn non_array_header_value_refuses_payload() {
    let json = http_payload_json("Ping").replace("\"Headers\":{}", "\"Headers\":{\"X-A\":\"v\"}");
    assert!(FunctionPayload::from_payload(&json.into_bytes()).is_err());
}

#[test]
fn null_body_means_no_body() {
    let json = http_payload_json("Ping")
        .replace("\"Headers\":{}}", "\"Headers\":{},\"Body\":null}");
    let payload = FunctionPayload::from_payload(&json.into_bytes()).unwrap();
    match payload {
        FunctionPayload::HttpData(p) => assert!(p.data.req.body.is_none()),
        _ => panic!("expected the HTTP variant"),
    }
}

#[test]
fn non_string_extra_input_refuses_payload() {
    let json = http_payload_json("Ping")
        .replace("}},\"Metadata\"", "},\"extra\":{\"k\":1}},\"Metadata\"");
    assert!(FunctionPayload::from_payload(&json.into_bytes()).is_err());
}

#[test]
fn decodes_event_hub_payload() {
    let json = "{\"Data\":\"event-body\",\"Metadata\":{\"Offset\":\"42\",\"SequenceNumber\":\"7\",\"EnqueuedTimeUtc\":\"2024-05-01T12:30:00\",\"sys\":{\"MethodName\":\"OnEvent\",\"UtcNow\":\"2024-05-01T12:30:05Z\",\"RandGuid\":\"6f1c3f0a-2f1b-4e7e-9c62-3bb1f3a2d8b1\"}}}";
    let payload = FunctionPayload::from_payload(&json.as_bytes().to_vec()).unwrap();
    assert_eq!(payload.method_name(), "OnEvent");
    match payload {
        FunctionPayload::EventHubData(p) => {
            assert_eq!(p.data, "event-body");
            assert_eq!(p.metadata.offset, "42");
            assert_eq!(p.metadata.sequence_number, "7");
            assert_eq!(p.metadata.enqueued_time_utc, "2024-05-01T12:30:00");
        }
        _ => panic!("expected the event-hub variant"),
    }
}

#[test]
fn decodes_timer_payload() {
    let json = "{\"Data\":{\"timer\":{\"Schedule\":{\"AdjustForDST\":true},\"ScheduleStatus\":{\"Last\":null,\"Next\":\"2024-05-01T13:00:00Z\",\"LastUpdated\":\"2024-05-01T12:00:00Z\"},\"IsPastDue\":false}},\"Metadata\":{\"sys\":{\"MethodName\":\"Tick\",\"UtcNow\":\"2024-05-01T12:30:00Z\",\"RandGuid\":\"6f1c3f0a-2f1b-4e7e-9c62-3bb1f3a2d8b1\"}}}";
    let payload = FunctionPayload::from_payload(&json.as_bytes().to_vec()).unwrap();
    assert_eq!(payload.method_name(), "Tick");
    match payload {
        FunctionPayload::TimerData(p) => {
            assert!(p.data.timer.schedule.adjust_for_dst);
            assert!(!p.data.timer.is_past_due);
            assert!(p.data.timer.schedule_status.last.is_none());
            assert_eq!(p.data.timer.schedule_status.next, "2024-05-01T13:00:00Z");
            assert_eq!(
                p.data.timer.schedule_status.last_updated.as_deref(),
                Some("2024-05-01T12:00:00Z")
            );
        }
        _ => panic!("expected the timer variant"),
    }
}

#[test]
fn timer_without_last_field_is_refused() {
    let json = "{\"Data\":{\"timer\":{\"Schedule\":{\"AdjustForDST\":true},\"ScheduleStatus\":{\"Next\":\"2024-05-01T13:00:00Z\",\"LastUpdated\":null},\"IsPastDue\":false}},\"Metadata\":{\"sys\":{\"MethodName\":\"Tick\",\"UtcNow\":\"2024-05-01T12:30:00Z\",\"RandGuid\":\"6f1c3f0a-2f1b-4e7e-9c62-3bb1f3a2d8b1\"}}}";
    assert!(FunctionPayload::from_payload(&json.as_bytes().to_vec()).is_err());
}

#[test]
fn event_hub_bad_enqueued_time_is_refused() {
    let json = "{\"Data\":\"event-body\",\"Metadata\":{\"Offset\":\"42\",\"SequenceNumber\":\"7\",\"EnqueuedTimeUtc\":\"noon\",\"sys\":{\"MethodName\":\"OnEvent\",\"UtcNow\":\"2024-05-01T12:30:05Z\",\"RandGuid\":\"6f1c3f0a-2f1b-4e7e-9c62-3bb1f3a2d8b1\"}}}";
    assert!(FunctionPayload::from_payload(&json.as_bytes().to_vec()).is_err());
}

#[test]
fn http_variant_wins_over_later_variants() {
    // The HTTP shape is tried first; a document carrying both the HTTP
    // required fields and event-hub-like metadata fields decodes as HTTP.
    let json = "{\"Data\":{\"req\":{\"Url\":\"http://localhost/api/x\",\"Method\":\"GET\",\"Query\":{},\"Headers\":{}}},\"Metadata\":{\"Offset\":\"1\",\"SequenceNumber\":\"2\",\"EnqueuedTimeUtc\":\"2024-05-01T12:30:00\",\"sys\":{\"MethodName\":\"Both\",\"UtcNow\":\"2024-05-01T12:30:00Z\",\"RandGuid\":\"6f1c3f0a-2f1b-4e7e-9c62-3bb1f3a2d8b1\"}}}";
    let payload = FunctionPayload::from_payload(&json.as_bytes().to_vec()).unwrap();
    assert!(matches!(payload, FunctionPayload::HttpData(_)));
}

#[test]
fn from_payload_trait_decodes_http_only() {
    let bytes = http_payload_json("Ping").into_bytes();
    let p = HttpPayload::from_payload(&bytes).unwrap();
    assert_eq!(FromPayload::method_name(&p), "Ping");
}

#[test]
fn encoding_is_idempotent() {
    let response = FunctionsResponse::http(HttpStatusCode::Okay).body("pong".to_string());
    let first = response.encode();
    let second = response.encode();
    assert_eq!(first, second);
    assert_eq!(first.as_bytes(), second.as_bytes());
}

#[test]
fn encodes_escapes_exactly() {
    let mut response = FunctionsResponse::http(HttpStatusCode::Okay)
        .body("a\"b\\c\nd\te\u{1}".to_string());
    response.logs.push("line\r\u{c}\u{8}".to_string());
    let encoded = response.encode();
    assert_eq!(
        encoded,
        "{\"Outputs\":{\"res\":{\"body\":\"a\\\"b\\\\c\\nd\\te\\u0001\",\"statusCode\":\"200\",\"headers\":{}}},\"Logs\":[\"line\\r\\f\\b\"]}"
    );
}

#[test]
fn encodes_headers_in_insertion_order() {
    let mut response = FunctionsResponse::http(HttpStatusCode::Found);
    response
        .outputs
        .res
        .insert_header("Location".to_string(), "/target".to_string());
    response
        .outputs
        .res
        .insert_header("X-Extra".to_string(), "1".to_string());
    let encoded = response.encode();
    assert_eq!(
        encoded,
        "{\"Outputs\":{\"res\":{\"body\":\"\",\"statusCode\":\"302\",\"headers\":{\"Location\":\"/target\",\"X-Extra\":\"1\"}}},\"Logs\":[]}"
    );
}
