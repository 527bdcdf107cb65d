use jsonapi_client::errors::Error as ResponseError;
use jsonapi_client::failure::{Error, Failure, Links, Source};
use jsonapi_client::json::Json;

fn text(s: &str) -> Json {
    Json::String(s.to_string())
}

fn object(members: Vec<(&str, Json)>) -> Json {
    Json::Object(members.into_iter().map(|(k, v)| (k.to_string(), v)).collect())
}

fn keys(j: &Json) -> Vec<String> {
    match j {
        Json::Object(ms) => ms.iter().map(|(k, _)| k.clone()).collect(),
        _ => panic!("not an object"),
    }
}

#[test]
fn test_single_error() {
    let input: Error = Error {
        title: "not found".to_string(),
        detail: None,
        status: "404".to_string(),
        ..Default::default()
    };
    let expected = "Error(404): not found.";
    let actual = input.to_string();
    assert_eq!(expected, actual);
}

#[test]
fn test_error_with_detail() {
    let input = Error {
        title: "not found".to_string(),
        detail: Some("The requested resource could not be found.".to_string()),
        status: "404".to_string(),
        ..Default::default()
    };
    let expected = "Error(404): not found. The requested resource could not be found.";
    let actual = input.to_string();
    assert_eq!(expected, actual);
}

#[test]
fn test_error_without_title() {
    let input = Error {
        title: "".to_string(),
        detail: Some("The requested resource could not be found.".to_string()),
        status: "404".to_string(),
        ..Default::default()
    };
    let expected = "Error(404): The requested resource could not be found.";
    let actual = input.to_string();
    assert_eq!(expected, actual);
}

#[test]
fn test_error_without_detail() {
    let input = Error {
        title: "not found".to_string(),
        status: "404".to_string(),
        ..Default::default()
    };
    let expected = "Error(404): not found.";
    let actual = input.to_string();
    assert_eq!(expected, actual);
}

#[test]
fn test_error_without_title_and_detail() {
    let input = Error {
        title: "".to_string(),
        status: "404".to_string(),
        ..Default::default()
    };
    let expected = "Error(404)";
    let actual = input.to_string();
    assert_eq!(expected, actual);
}

#[test]
fn test_error_with_source_pointer() {
    let input = Error {
        title: "invalid attribute".to_string(),
        detail: Some("Name has already been taken".to_string()),
        status: "422".to_string(),
        source: Some(Source {
            pointer: Some("/data/attributes/name".to_string()),
            ..Default::default()
        }),
        ..Default::default()
    };
    let expected = "Error(422): invalid attribute. Name has already been taken.";
    let actual = input.to_string();
    assert_eq!(expected, actual);
}

#[test]
fn test_failure_with_no_errors() {
    let input = Failure { errors: vec![] };
    let expected = "No errors.";
    let actual = input.to_string();
    assert_eq!(expected, actual);
}

#[test]
fn test_failure_with_single_error() {
    let input = Failure {
        errors: vec![Error {
            id: Some("1".to_string()),
            status: "404".to_string(),
            title: "Not Found".to_string(),
            detail: Some("Resource not found".to_string()),
            ..Default::default()
        }],
    };
    let expected = "Failure: [Error(404): Not Found. Resource not found.]";
    let actual = input.to_string();
    assert_eq!(expected, actual);
}

#[test]
fn test_failure_with_multiple_errors() {
    let input = Failure {
        errors: vec![
            Error {
                id: Some("1".to_string()),
                status: "404".to_string(),
                title: "Not Found".to_string(),
                detail: Some("Resource not found".to_string()),
                ..Default::default()
            },
            Error {
                id: Some("2".to_string()),
                status: "500".to_string(),
                title: "Server Error".to_string(),
                detail: Some("Unexpected server error".to_string()),
                ..Default::default()
            },
        ],
    };
    let expected = "Failure: [Error(404): Not Found. Resource not found., Error(500): Server Error. Unexpected server error.]";
    let actual = input.to_string();
    assert_eq!(expected, actual);
}

#[test]
fn rendering_tidies_whitespace_and_full_stops() {
    let input = Error {
        status: "400".to_string(),
        title: "  ..Bad request..  ".to_string(),
        detail: Some(" Missing name. ".to_string()),
        ..Default::default()
    };
    assert_eq!(input.to_string(), "Error(400): Bad request. Missing name.");
    let dots_only = Error {
        status: "400".to_string(),
        title: " ... ".to_string(),
        ..Default::default()
    };
    assert_eq!(dots_only.to_string(), "Error(400)");
}

#[test]
fn rendering_twice_gives_the_same_text() {
    let input = Failure {
        errors: vec![Error {
            status: "404".to_string(),
            title: "Not Found".to_string(),
            ..Default::default()
        }],
    };
    let first = input.to_string();
    let second = input.to_string();
    assert_eq!(first, second);
    assert_eq!(first, input.clone().to_string());
}

#[test]
fn error_object_round_trip_omits_absent_fields() {
    let parsed = Json::parse(
        r#"{"status":"404","title":"Not Found","id":null,"detail":"gone","links":{"about":"https://example.com","type":null},"extra":1}"#,
    )
    .unwrap();
    let e = Error::from_json(&parsed).unwrap();
    assert_eq!(e.status, "404");
    assert_eq!(e.detail, Some("gone".to_string()));
    assert_eq!(e.id, None);
    assert_eq!(
        e.links,
        Some(Links { about: Some("https://example.com".to_string()), type_: None })
    );
    let out = e.to_json();
    assert_eq!(keys(&out), vec!["status", "title", "detail", "links"]);
    assert_eq!(
        out,
        object(vec![
            ("status", text("404")),
            ("title", text("Not Found")),
            ("detail", text("gone")),
            ("links", object(vec![("about", text("https://example.com"))])),
        ])
    );
    assert_eq!(Error::from_json(&out).unwrap(), e);
}

#[test]
fn error_object_keeps_meta_and_source() {
    let parsed = Json::parse(
        r#"{"status":"422","title":"t","meta":{"k":[1,true]},"source":{"pointer":"/data"}}"#,
    )
    .unwrap();
    let e = Error::from_json(&parsed).unwrap();
    assert_eq!(
        e.meta,
        Some(object(vec![(
            "k",
            Json::Array(vec![Json::Number("1".to_string()), Json::Bool(true)])
        )]))
    );
    assert_eq!(
        e.source,
        Some(Source { pointer: Some("/data".to_string()), parameter: None, header: None })
    );
    assert_eq!(keys(&e.to_json()), vec!["status", "title", "meta", "source"]);
}

#[test]
fn error_object_decoding_failures() {
    let missing = object(vec![("title", text("t"))]);
    assert_eq!(Error::from_json(&missing), Err("missing field `status`".to_string()));
    let wrong = object(vec![("status", Json::Number("404".to_string())), ("title", text("t"))]);
    assert_eq!(Error::from_json(&wrong), Err("invalid type for field `status`".to_string()));
    let bad_links = object(vec![("status", text("1")), ("title", text("t")), ("links", text("x"))]);
    assert_eq!(Error::from_json(&bad_links), Err("invalid type for field `links`".to_string()));
    assert_eq!(
        Error::from_json(&Json::Null),
        Err("invalid type: expected a JSON object".to_string())
    );
}

#[test]
fn failure_document_from_and_to_json() {
    let parsed =
        Json::parse(r#"{"errors":[{"status":"401","title":"unauthorized"}]}"#).unwrap();
    let f = Failure::from_json(&parsed).unwrap();
    assert_eq!(f.to_string(), "Failure: [Error(401): unauthorized.]");
    assert_eq!(f.to_json(), parsed);
    assert_eq!(
        Failure::from_json(&object(vec![])),
        Err("missing field `errors`".to_string())
    );
    assert_eq!(
        Failure::from_json(&object(vec![("errors", text("no"))])),
        Err("invalid type for field `errors`".to_string())
    );
    let second_bad = object(vec![(
        "errors",
        Json::Array(vec![
            object(vec![("status", text("1")), ("title", text("a"))]),
            object(vec![("status", text("2"))]),
        ]),
    )]);
    assert_eq!(Failure::from_json(&second_bad), Err("missing field `title`".to_string()));
}

#[test]
fn response_error_with_document_body_converts_to_it() {
    let body = Json::parse(r#"{"errors":[{"status":"401","title":"unauthorized"}]}"#).unwrap();
    let e = ResponseError::Response {
        canonical_reason: "Unauthorized".to_string(),
        status: Some("401".to_string()),
        body: Some(body),
    };
    let f = Failure::try_from(e).unwrap_err();
    assert_eq!(f.errors.len(), 1);
    assert_eq!(f.errors[0].status, "401");
    assert_eq!(f.errors[0].title, "unauthorized");
}

#[test]
fn response_error_with_other_body_gives_synthetic_error() {
    let e = ResponseError::Response {
        canonical_reason: "Bad Gateway".to_string(),
        status: Some("502".to_string()),
        body: Some(object(vec![("message", text("oops"))])),
    };
    let f = Failure::try_from(e).unwrap_err();
    assert_eq!(
        f,
        Failure {
            errors: vec![Error {
                status: "400".to_string(),
                title: "missing field `errors`".to_string(),
                ..Default::default()
            }]
        }
    );
}

#[test]
fn response_error_without_body_gives_its_status_and_reason() {
    let e = ResponseError::Response {
        canonical_reason: "Not Found".to_string(),
        status: Some("404".to_string()),
        body: None,
    };
    let f = Failure::try_from(e).unwrap_err();
    assert_eq!(f.to_string(), "Failure: [Error(404): Not Found.]");
    let e = ResponseError::transport("connection refused".to_string());
    let f = Failure::try_from(e).unwrap_err();
    assert_eq!(f.to_string(), "Failure: [Error(400): connection refused.]");
}
