use jsonapi_client::errors::Error;
use jsonapi_client::executor::{decode_failure, read_response, Method, Mutation};
use jsonapi_client::json::Json;

#[test]
fn unauthorized_response_is_reported_with_its_body() {
    let actual = read_response(
        401,
        Ok(r#"{"errors":[{"status":"401","title":"unauthorized"}]}"#.to_string()),
    )
    .unwrap_err();
    let expected = Error::Response {
        canonical_reason: "Unauthorized".to_string(),
        status: Some("401".to_string()),
        body: Some(Json::Object(vec![(
            "errors".to_string(),
            Json::Array(vec![Json::Object(vec![
                ("status".to_string(), Json::String("401".to_string())),
                ("title".to_string(), Json::String("unauthorized".to_string())),
            ])]),
        )])),
    };
    assert_eq!(actual, expected);
}

#[test]
fn successful_response_returns_its_payload() {
    let actual = read_response(200, Ok(r#"{"ipv4":["1.2.3.4/32"],"n":12}"#.to_string()));
    assert_eq!(
        actual,
        Ok(Json::Object(vec![
            (
                "ipv4".to_string(),
                Json::Array(vec![Json::String("1.2.3.4/32".to_string())])
            ),
            ("n".to_string(), Json::Number("12".to_string())),
        ]))
    );
    assert_eq!(read_response(204, Ok("null".to_string())), Ok(Json::Null));
    assert_eq!(read_response(299, Ok("true".to_string())), Ok(Json::Bool(true)));
}

#[test]
fn error_status_without_registered_phrase() {
    let actual = read_response(599, Ok("{}".to_string())).unwrap_err();
    assert_eq!(
        actual,
        Error::Response {
            canonical_reason: "server returned an error response".to_string(),
            status: Some("599".to_string()),
            body: Some(Json::Object(vec![])),
        }
    );
    let redirect = read_response(301, Ok("[]".to_string())).unwrap_err();
    assert_eq!(
        redirect,
        Error::Response {
            canonical_reason: "Moved Permanently".to_string(),
            status: Some("301".to_string()),
            body: Some(Json::Array(vec![])),
        }
    );
}

#[test]
fn corrupt_payload_is_a_bad_request() {
    let actual = read_response(200, Ok("<html>".to_string())).unwrap_err();
    match actual {
        Error::Response { canonical_reason, status, body } => {
            assert!(canonical_reason.starts_with("corrupted response JSON payload received. "));
            assert!(canonical_reason.len() > "corrupted response JSON payload received. ".len());
            assert_eq!(status, Some("400".to_string()));
            assert_eq!(body, None);
        }
    }
    let server_error = read_response(500, Ok("".to_string())).unwrap_err();
    match server_error {
        Error::Response { status, body, .. } => {
            assert_eq!(status, Some("400".to_string()));
            assert_eq!(body, None);
        }
    }
}

#[test]
fn unreadable_body_is_a_transport_failure() {
    let actual = read_response(200, Err("connection reset".to_string())).unwrap_err();
    assert_eq!(actual, Error::transport("connection reset".to_string()));
    assert_eq!(
        actual,
        Error::Response {
            canonical_reason: "connection reset".to_string(),
            status: None,
            body: None,
        }
    );
}

#[test]
fn decode_failures_by_verb() {
    let reason = r#"invalid type: string \"x\", expected u32"#;
    for m in [Method::Get, Method::Post, Method::Put, Method::Delete] {
        assert_eq!(decode_failure(m, reason.to_string()), Error::transport(reason.to_string()));
    }
    assert_eq!(
        decode_failure(Method::Patch, reason.to_string()),
        Error::Response {
            canonical_reason: r#"invalid type: string "x", expected u32"#.to_string(),
            status: Some("400".to_string()),
            body: None,
        }
    );
}

#[test]
fn each_verb_attaches_its_payload() {
    assert_eq!(Method::Get.mutation(), Mutation::AttachQuery);
    assert_eq!(Method::Post.mutation(), Mutation::AttachJsonBody);
    assert_eq!(Method::Put.mutation(), Mutation::AttachJsonBody);
    assert_eq!(Method::Delete.mutation(), Mutation::AttachJsonBody);
    assert_eq!(Method::Patch.mutation(), Mutation::AttachRawBody);
}

#[test]
fn parse_json_reports_errors() {
    assert!(Json::parse("{").is_err());
    assert_eq!(Json::parse("\"a\\u0062\"").unwrap(), Json::String("ab".to_string()));
    assert_eq!(Json::parse("-1.5e3").unwrap(), Json::Number("-1500.0".to_string()));
}
