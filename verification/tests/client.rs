use metta_kg::client::{MorkApiClient, Outbound, TransportOutcome};
use metta_kg::error::ErrorKind;
use metta_kg::request::clear::ClearRequest;
use metta_kg::request::transform::TransformRequest;
use metta_kg::request::upload::UploadRequest;
use metta_kg::request::Request;
use metta_kg::wire::{BodyEncoding, Method, WireRequest};

fn client() -> MorkApiClient {
    MorkApiClient::new(Some("http://127.0.0.1:8001".to_string()))
}

fn prepared(request: &Request) -> Outbound {
    match client().prepare(&request.wire()) {
        Ok(outbound) => outbound,
        Err(e) => panic!("a built request was refused: {:?}", e),
    }
}

fn wire(path: &str, body: Option<&str>, encoding: BodyEncoding) -> WireRequest {
    WireRequest {
        method: Method::Post,
        path: path.to_string(),
        body: body.map(|b| b.to_string()),
        encoding,
    }
}

#[test]
fn upload_goes_out_as_plain_text_with_its_payload() {
    let request = Request::Upload(
        UploadRequest::new()
            .pattern("$x".to_string())
            .template("$x".to_string())
            .data("(foo bar)".to_string()),
    );
    let outbound = prepared(&request);
    assert_eq!(outbound.content_type, Some("text/plain".to_string()));
    assert_eq!(outbound.body, Some("(foo bar)".to_string()));
    assert_eq!(outbound.encoding, BodyEncoding::Text);
    assert_eq!(outbound.method, Method::Post);
    assert_eq!(outbound.url, "http://127.0.0.1:8001/upload/%24x/%24x");
}

#[test]
fn transform_goes_out_as_plain_text() {
    let outbound = prepared(&Request::Transform(TransformRequest::new()));
    assert_eq!(outbound.content_type, Some("text/plain".to_string()));
    assert_eq!(outbound.body, Some("(transform (, $x) (, $x))".to_string()));
    assert_eq!(outbound.url, "http://127.0.0.1:8001/transform");
}

#[test]
fn request_without_body_sends_none() {
    let outbound = prepared(&Request::Clear(ClearRequest::new().expr("$x".to_string())));
    assert_eq!(outbound.content_type, None);
    assert_eq!(outbound.body, None);
    assert_eq!(outbound.encoding, BodyEncoding::Empty);
    assert_eq!(outbound.method, Method::Get);
    assert_eq!(outbound.url, "http://127.0.0.1:8001/clear/%24x");
}

#[test]
fn built_requests_are_prepared_the_same_way_on_both_paths() {
    let requests = vec![
        Request::Upload(UploadRequest::new().namespace("/a/".to_string()).data("(d)".to_string())),
        Request::Transform(TransformRequest::new().namespace("/a/".to_string())),
        Request::Clear(ClearRequest::new().expr("$x".to_string())),
    ];
    for request in requests {
        assert_eq!(Ok(client().outbound(&request)), client().prepare(&request.wire()));
    }
}

#[test]
fn outbound_carries_the_configured_timeout() {
    let request = Request::Clear(ClearRequest::new());
    assert_eq!(MorkApiClient::new(None).outbound(&request).timeout_secs, 30);
    assert_eq!(MorkApiClient::new(None).timeout(5).outbound(&request).timeout_secs, 5);
    assert_eq!(MorkApiClient::new(None).timeout(5).timeout_secs(), 5);
    assert_eq!(MorkApiClient::default().timeout_secs(), 30);
}

#[test]
fn upload_path_never_selects_structured_encoding() {
    for encoding in [BodyEncoding::Text, BodyEncoding::Structured, BodyEncoding::Empty] {
        for body in [None, Some("payload")] {
            let selected = MorkApiClient::select_encoding(&wire("/upload/a/b", body, encoding));
            assert_ne!(selected, Ok(BodyEncoding::Structured));
        }
    }
    assert_eq!(
        MorkApiClient::select_encoding(&wire("/upload/a/b", Some("p"), BodyEncoding::Text)),
        Ok(BodyEncoding::Text)
    );
}

#[test]
fn structured_body_on_a_text_route_is_unsupported() {
    let upload = wire("/upload/a/b", Some("{}"), BodyEncoding::Structured);
    assert_eq!(MorkApiClient::select_encoding(&upload), Err(ErrorKind::UnsupportedBodyType));
    assert_eq!(client().prepare(&upload), Err(ErrorKind::UnsupportedBodyType));
    let transform = wire("/transform", Some("{}"), BodyEncoding::Structured);
    assert_eq!(client().prepare(&transform), Err(ErrorKind::UnsupportedBodyType));
    let undeclared = wire("/upload/a/b", Some("text"), BodyEncoding::Empty);
    assert_eq!(client().prepare(&undeclared), Err(ErrorKind::UnsupportedBodyType));
}

#[test]
fn body_on_any_other_route_is_structured() {
    for encoding in [BodyEncoding::Text, BodyEncoding::Structured] {
        let request = wire("/tokens", Some("{\"a\":1}"), encoding);
        match client().prepare(&request) {
            Ok(outbound) => {
                assert_eq!(outbound.encoding, BodyEncoding::Structured);
                assert_eq!(outbound.content_type, Some("application/json".to_string()));
                assert_eq!(outbound.body, Some("{\"a\":1}".to_string()));
            }
            Err(e) => panic!("refused: {:?}", e),
        }
    }
}

#[test]
fn text_routes_are_told_by_the_path() {
    let select = |path: &str| MorkApiClient::select_encoding(&wire(path, Some("b"), BodyEncoding::Text));
    assert_eq!(select("/upload/"), Ok(BodyEncoding::Text));
    assert_eq!(select("/transform"), Ok(BodyEncoding::Text));
    assert_eq!(select("/upload"), Ok(BodyEncoding::Structured));
    assert_eq!(select("/transform/"), Ok(BodyEncoding::Structured));
    assert_eq!(select("/x/upload/"), Ok(BodyEncoding::Structured));
    assert_eq!(select(""), Ok(BodyEncoding::Structured));
}

#[test]
fn no_body_means_no_encoding_on_every_route() {
    for path in ["/upload/a/b", "/transform", "/clear/x"] {
        for encoding in [BodyEncoding::Text, BodyEncoding::Structured, BodyEncoding::Empty] {
            assert_eq!(
                MorkApiClient::select_encoding(&wire(path, None, encoding)),
                Ok(BodyEncoding::Empty)
            );
        }
    }
}

#[test]
fn unreachable_engine_is_a_transport_error() {
    assert_eq!(
        MorkApiClient::conclude(TransportOutcome::SendFailed),
        Err(ErrorKind::TransportError)
    );
}

#[test]
fn unreadable_body_is_a_decode_error() {
    assert_eq!(
        MorkApiClient::conclude(TransportOutcome::BodyUnreadable),
        Err(ErrorKind::ResponseDecodeError)
    );
}

#[test]
fn response_text_is_returned_unmodified() {
    let text = "  (raw (engine output))\n\n";
    assert_eq!(
        MorkApiClient::conclude(TransportOutcome::Body(text.to_string())),
        Ok(text.to_string())
    );
    assert_eq!(MorkApiClient::conclude(TransportOutcome::Body(String::new())), Ok(String::new()));
}

#[test]
fn base_url_is_the_configured_one_or_the_default() {
    assert_eq!(MorkApiClient::new(None).base_url(), "http://localhost:8001");
    assert_eq!(MorkApiClient::default().base_url(), "http://localhost:8001");
    assert_eq!(client().base_url(), "http://127.0.0.1:8001");
}

#[test]
fn url_is_base_followed_by_path() {
    assert_eq!(client().url_for("/transform"), "http://127.0.0.1:8001/transform");
    assert_eq!(client().url_for(""), "http://127.0.0.1:8001");
}

#[test]
fn every_error_is_surfaced_as_an_internal_error() {
    for kind in [
        ErrorKind::EncodingError,
        ErrorKind::TransportError,
        ErrorKind::ResponseDecodeError,
        ErrorKind::UnsupportedBodyType,
    ] {
        assert_eq!(kind.status(), 500);
    }
}

#[test]
fn method_names() {
    assert_eq!(Method::Get.as_str(), "GET");
    assert_eq!(Method::Post.as_str(), "POST");
}

#[test]
fn content_types() {
    assert_eq!(BodyEncoding::Text.content_type(), Some("text/plain".to_string()));
    assert_eq!(BodyEncoding::Structured.content_type(), Some("application/json".to_string()));
    assert_eq!(BodyEncoding::Empty.content_type(), None);
}
