use minicurl::BodyMode;
use minicurl::CliInput;
use minicurl::Method;
use minicurl::Rendered;
use minicurl::RequestSpec;
use minicurl::build_request;
use minicurl::render_response;
use minicurl::transport_error_report;
use minicurl::u16_numeral;

fn get_request(url: &str) -> RequestSpec {
    RequestSpec { url: url.to_string(), method: Method::Get, body: BodyMode::Empty }
}

#[test]
fn numeral_of_status_codes() {
    assert_eq!(u16_numeral(404), "404");
    assert_eq!(u16_numeral(200), "200");
    assert_eq!(u16_numeral(0), "0");
    assert_eq!(u16_numeral(65535), "65535");
    assert_eq!(u16_numeral(7), "7");
}

#[test]
fn json_body_pretty_printed_with_sorted_keys() {
    let req = get_request("https://example.com");
    match render_response(&req, 200, "{\"b\":1,\"a\":2}") {
        Rendered::Success { text } => assert_eq!(
            text,
            "Requesting URL: https://example.com\nMethod: GET\nResponse body (JSON with sorted keys):\n{\n  \"a\": 2,\n  \"b\": 1\n}"
        ),
        Rendered::Failure { .. } => panic!("a 200 response renders as success"),
    }
}

#[test]
fn non_json_body_emitted_verbatim() {
    let req = get_request("https://example.com");
    match render_response(&req, 200, "plain text, not JSON") {
        Rendered::Success { text } => assert_eq!(
            text,
            "Requesting URL: https://example.com\nMethod: GET\nResponse body:\nplain text, not JSON"
        ),
        Rendered::Failure { .. } => panic!("a 200 response renders as success"),
    }
}

#[test]
fn non_success_status_suppresses_body() {
    let req = get_request("https://example.com");
    match render_response(&req, 404, "{\"a\":1}") {
        Rendered::Failure { text } => assert_eq!(
            text,
            "Requesting URL: https://example.com\nMethod: GET\nError: Request failed with status code: 404"
        ),
        Rendered::Success { .. } => panic!("a 404 response renders as failure"),
    }
}

#[test]
fn status_299_is_success_300_is_not() {
    let req = get_request("https://example.com");
    assert!(matches!(render_response(&req, 299, "x"), Rendered::Success { .. }));
    assert!(matches!(render_response(&req, 300, "x"), Rendered::Failure { .. }));
    assert!(matches!(render_response(&req, 199, "x"), Rendered::Failure { .. }));
}

#[test]
fn post_json_request_echoed() {
    let inp = CliInput {
        url: "https://example.com".to_string(),
        method: "GET".to_string(),
        data: None,
        json: Some("{\"x\":1}".to_string()),
    };
    let req = build_request(&inp).unwrap();
    match render_response(&req, 200, "ok") {
        Rendered::Success { text } => assert_eq!(
            text,
            "Requesting URL: https://example.com\nMethod: POST\nJSON: {\"x\":1}\nResponse body:\nok"
        ),
        Rendered::Failure { .. } => panic!("a 200 response renders as success"),
    }
}

#[test]
fn post_form_request_echoes_raw_data() {
    let inp = CliInput {
        url: "https://example.com".to_string(),
        method: "POST".to_string(),
        data: Some("a=1&b=2".to_string()),
        json: None,
    };
    let req = build_request(&inp).unwrap();
    match render_response(&req, 200, "ok") {
        Rendered::Success { text } => assert_eq!(
            text,
            "Requesting URL: https://example.com\nMethod: POST\nData: a=1&b=2\nResponse body:\nok"
        ),
        Rendered::Failure { .. } => panic!("a 200 response renders as success"),
    }
}

#[test]
fn post_without_data_echoes_empty_data_line() {
    let inp = CliInput {
        url: "https://example.com".to_string(),
        method: "POST".to_string(),
        data: None,
        json: None,
    };
    let req = build_request(&inp).unwrap();
    match render_response(&req, 200, "ok") {
        Rendered::Success { text } => assert_eq!(
            text,
            "Requesting URL: https://example.com\nMethod: POST\nData: \nResponse body:\nok"
        ),
        Rendered::Failure { .. } => panic!("a 200 response renders as success"),
    }
}

#[test]
fn connect_failure_has_network_wording() {
    let report = transport_error_report("https://example.com", Method::Get, true, false);
    assert_eq!(
        report,
        "Requesting URL: https://example.com\nMethod: GET\nError: Unable to connect to the server. Perhaps the network is offline or the server hostname cannot be resolved."
    );
}

#[test]
fn timeout_failure_has_network_wording() {
    let report = transport_error_report("https://example.com", Method::Get, false, true);
    assert!(report.contains("Unable to connect to the server"));
}

#[test]
fn other_transport_failure_is_generic() {
    let report = transport_error_report("https://example.com", Method::Post, false, false);
    assert_eq!(
        report,
        "Requesting URL: https://example.com\nMethod: POST\nError: An unexpected error occurred"
    );
}

#[test]
fn nested_json_round_trip_sorted() {
    let req = get_request("http://example.com");
    let body = "{\"z\":{\"b\":1,\"a\":[1,2]},\"a\":null}";
    match render_response(&req, 200, body) {
        Rendered::Success { text } => assert_eq!(
            text,
            "Requesting URL: http://example.com\nMethod: GET\nResponse body (JSON with sorted keys):\n{\n  \"a\": null,\n  \"z\": {\n    \"a\": [\n      1,\n      2\n    ],\n    \"b\": 1\n  }\n}"
        ),
        Rendered::Failure { .. } => panic!("a 200 response renders as success"),
    }
}
