use metta_kg::details::{ExportFormat, TransformDetails};
use metta_kg::error::ErrorKind;
use metta_kg::request::clear::ClearRequest;
use metta_kg::request::explore::ExploreRequest;
use metta_kg::request::export::ExportRequest;
use metta_kg::request::import::ImportRequest;
use metta_kg::request::read::ReadRequest;
use metta_kg::request::transform::TransformRequest;
use metta_kg::request::upload::UploadRequest;
use metta_kg::request::Request;
use metta_kg::wire::{BodyEncoding, Method};

fn texts(items: &[&str]) -> Vec<String> {
    items.iter().map(|s| s.to_string()).collect()
}

fn transform(ns: &str, patterns: &[&str], templates: &[&str]) -> TransformRequest {
    let details = TransformDetails::new().patterns(texts(patterns)).templates(texts(templates));
    match TransformRequest::new().namespace(ns.to_string()).transform_input(details) {
        Ok(request) => request,
        Err(e) => panic!("refused complete details: {:?}", e),
    }
}

#[test]
fn transform_body_of_identity_under_one_segment() {
    let request = transform("/ns/", &["$x"], &["$x"]);
    assert_eq!(request.transform_code(), "(transform (, (ns $x)) (, (ns $x)))");
    assert_eq!(request.body(), Some("(transform (, (ns $x)) (, (ns $x)))".to_string()));
    assert_eq!(request.path(), "/transform");
    assert_eq!(request.method(), Method::Post);
}

#[test]
fn transform_defaults_to_the_identity_under_the_root() {
    assert_eq!(TransformRequest::new().transform_code(), "(transform (, $x) (, $x))");
    assert_eq!(TransformRequest::default().transform_code(), "(transform (, $x) (, $x))");
}

#[test]
fn transform_keeps_the_order_of_patterns_and_templates() {
    let request = transform("/a/b/", &["(p $x)", "(q $y)"], &["(r $x $y)", "$y", "$x"]);
    assert_eq!(
        request.transform_code(),
        "(transform (, (a (b (p $x))) (a (b (q $y)))) (, (a (b (r $x $y))) (a (b $y)) (a (b $x))))"
    );
}

#[test]
fn transform_refuses_empty_patterns() {
    let details = TransformDetails::new().patterns(Vec::new());
    assert!(matches!(
        TransformRequest::new().transform_input(details),
        Err(ErrorKind::EncodingError)
    ));
}

#[test]
fn transform_refuses_empty_templates() {
    let details = TransformDetails::new().templates(Vec::new());
    assert!(matches!(
        TransformRequest::new().transform_input(details),
        Err(ErrorKind::EncodingError)
    ));
}

#[test]
fn transform_refuses_details_with_nothing_in_them() {
    let details = TransformDetails { patterns: Vec::new(), templates: Vec::new() };
    assert!(matches!(
        TransformRequest::new().transform_input(details),
        Err(ErrorKind::EncodingError)
    ));
}

#[test]
fn transform_clone_builds_the_same_request() {
    let request = transform("/ns/", &["(a $x)"], &["(b $x)"]);
    assert_eq!(request.clone().transform_code(), request.transform_code());
}

#[test]
fn transform_details_start_from_the_identity() {
    let details = TransformDetails::new();
    assert_eq!(details.patterns, vec!["$x".to_string()]);
    assert_eq!(details.templates, vec!["$x".to_string()]);
    let same = TransformDetails::default();
    assert_eq!(same.patterns, details.patterns);
    assert_eq!(same.templates, details.templates);
    assert!(details.is_complete());
}

#[test]
fn transform_details_builders_replace_one_sequence() {
    let details = TransformDetails::new().patterns(texts(&["(a $x)", "(b $x)"]));
    assert_eq!(details.patterns, texts(&["(a $x)", "(b $x)"]));
    assert_eq!(details.templates, texts(&["$x"]));
    let details = details.templates(Vec::new());
    assert_eq!(details.patterns, texts(&["(a $x)", "(b $x)"]));
    assert!(details.templates.is_empty());
    assert!(!details.is_complete());
    let copy = details.clone();
    assert_eq!(copy.patterns, details.patterns);
    assert_eq!(copy.templates, details.templates);
}

#[test]
fn import_path_is_written_unescaped() {
    let request = ImportRequest::new()
        .namespace("/a/b/".to_string())
        .uri("https://example.org/data.metta".to_string());
    assert_eq!(request.path(), "/import/$x/(a (b $x))/?uri=https://example.org/data.metta");
    assert_eq!(request.method(), Method::Get);
    assert_eq!(request.body(), None);
}

#[test]
fn import_uses_the_first_template() {
    let details = TransformDetails::new().templates(texts(&["(t $x)", "(u $x)"]));
    let request = ImportRequest::new()
        .namespace("/ns/".to_string())
        .transform_input(details)
        .uri("file:///d".to_string());
    assert_eq!(request.path(), "/import/$x/(ns (t $x))/?uri=file:///d");
}

#[test]
fn import_without_template_falls_back_to_the_identity() {
    let details = TransformDetails::new().templates(Vec::new());
    let request = ImportRequest::new().transform_input(details).uri("u".to_string());
    assert_eq!(request.path(), "/import/$x/$x/?uri=u");
    assert_eq!(ImportRequest::default().path(), "/import/$x/$x/?uri=");
}

#[test]
fn read_path_is_written_unescaped() {
    let request = ReadRequest::new().namespace("/ns/".to_string());
    assert_eq!(request.path(), "/export/(ns $x)/$x/");
    assert_eq!(request.method(), Method::Get);
    assert_eq!(request.body(), None);
}

#[test]
fn read_uses_the_first_pattern_and_template() {
    let details = TransformDetails::new()
        .patterns(texts(&["(p $x)", "(q $x)"]))
        .templates(texts(&["(t $x)"]));
    let request = ReadRequest::new().namespace("/a/b/".to_string()).transform_input(details);
    assert_eq!(request.path(), "/export/(a (b (p $x)))/(t $x)/");
}

#[test]
fn read_without_pattern_or_template_falls_back_to_the_identity() {
    let details = TransformDetails { patterns: Vec::new(), templates: Vec::new() };
    let request = ReadRequest::new().namespace("/ns/".to_string()).transform_input(details);
    assert_eq!(request.path(), "/export/(ns $x)/$x/");
    assert_eq!(ReadRequest::default().path(), "/export/$x/$x/");
}

#[test]
fn explore_path_is_written_unescaped() {
    let request = ExploreRequest::new()
        .namespace("/ns/".to_string())
        .pattern("(edge $a $b)".to_string())
        .token("t0".to_string());
    assert_eq!(request.path(), "/explore/(ns (edge $a $b))/t0/");
    assert_eq!(request.method(), Method::Get);
    assert_eq!(request.body(), None);
    assert_eq!(request.clone().path(), request.path());
}

#[test]
fn explore_without_pattern_uses_the_identity() {
    assert_eq!(ExploreRequest::new().path(), "/explore/$x//");
    assert_eq!(ExploreRequest::default().namespace("/a/".to_string()).path(), "/explore/(a $x)//");
}

#[test]
fn upload_path_is_percent_encoded() {
    let request = UploadRequest::new()
        .namespace("/ns/".to_string())
        .pattern("$x".to_string())
        .template("(ns $x)".to_string())
        .data("(foo bar)".to_string());
    assert_eq!(request.path(), "/upload/%24x/%28ns%20%24x%29");
    assert_eq!(request.method(), Method::Post);
    assert_eq!(request.body(), Some("(foo bar)".to_string()));
}

#[test]
fn upload_without_template_stores_under_the_namespace() {
    let request = UploadRequest::new().namespace("/a/b/".to_string()).data("(foo)".to_string());
    assert_eq!(request.path(), "/upload/%24x/%28a%20%28b%20%24x%29%29");
    assert_eq!(UploadRequest::default().path(), "/upload/%24x/%24x");
}

#[test]
fn upload_components_decode_to_what_was_given() {
    let pattern = "(edge $a /b) ~ 100%";
    let template = "(out $a) & more?";
    let path = UploadRequest::new()
        .pattern(pattern.to_string())
        .template(template.to_string())
        .path();
    let parts: Vec<&str> = path.split('/').collect();
    assert_eq!(parts.len(), 4);
    assert_eq!(parts[1], "upload");
    assert_eq!(urlencoding::decode(parts[2]).unwrap(), pattern);
    assert_eq!(urlencoding::decode(parts[3]).unwrap(), template);
}

#[test]
fn percent_encoding_round_trips_printable_ascii() {
    let printable: String = (0x20u8..0x7f).map(|b| b as char).collect();
    let path = ClearRequest::new().expr(printable.clone()).path();
    let encoded = &path["/clear/".len()..];
    assert!(!encoded.contains('(') && !encoded.contains(')') && !encoded.contains(' '));
    assert!(!encoded.contains('$') && !encoded.contains('/'));
    assert_eq!(urlencoding::decode(encoded).unwrap(), printable);
}

#[test]
fn percent_encoding_escapes_every_byte_of_other_scripts() {
    let request = ClearRequest::new().expr("\u{e9}\u{1f47e}".to_string());
    assert_eq!(request.path(), "/clear/%C3%A9%F0%9F%91%BE");
    assert_eq!(urlencoding::decode("%C3%A9%F0%9F%91%BE").unwrap(), "\u{e9}\u{1f47e}");
}

#[test]
fn percent_encoding_keeps_unreserved_characters() {
    let request = ClearRequest::new().expr("AZaz09-._~".to_string());
    assert_eq!(request.path(), "/clear/AZaz09-._~");
}

#[test]
fn export_path_ends_with_format_and_limit() {
    let request = ExportRequest::new()
        .pattern("$x".to_string())
        .template("$x".to_string())
        .format(ExportFormat::Json)
        .max_write(10);
    let path = request.path();
    assert!(path.ends_with("?format=json&max_write=10"));
    assert_eq!(path, "/export/%24x/%24x/?format=json&max_write=10");
    assert_eq!(request.method(), Method::Get);
    assert_eq!(request.body(), None);
}

#[test]
fn export_leaves_out_what_was_not_asked_for() {
    let base = || ExportRequest::new().namespace("/ns/".to_string()).pattern("(p $x)".to_string());
    assert_eq!(base().path(), "/export/%28ns%20%28p%20%24x%29%29/%24x");
    assert_eq!(
        base().format(ExportFormat::Csv).path(),
        "/export/%28ns%20%28p%20%24x%29%29/%24x/?format=csv"
    );
    assert_eq!(
        base().max_write(0).path(),
        "/export/%28ns%20%28p%20%24x%29%29/%24x/?max_write=0"
    );
    assert_eq!(ExportRequest::default().path(), "/export/%24x/%24x");
}

#[test]
fn export_format_tokens() {
    assert_eq!(ExportFormat::Metta.as_str(), "metta");
    assert_eq!(ExportFormat::Json.as_str(), "json");
    assert_eq!(ExportFormat::Csv.as_str(), "csv");
    assert_eq!(ExportFormat::Raw.as_str(), "raw");
    let with = |f: ExportFormat| ExportRequest::new().format(f).path();
    assert!(with(ExportFormat::Metta).ends_with("/?format=metta"));
    assert!(with(ExportFormat::Raw).ends_with("/?format=raw"));
}

#[test]
fn export_writes_large_limits_in_full() {
    let path = ExportRequest::new().max_write(usize::MAX).path();
    assert_eq!(path, format!("/export/%24x/%24x/?max_write={}", usize::MAX));
}

#[test]
fn clear_path_is_percent_encoded() {
    let request = ClearRequest::new().namespace("/ns/".to_string()).expr("$x".to_string());
    assert_eq!(request.path(), "/clear/%28ns%20%24x%29");
    assert_eq!(request.method(), Method::Get);
    assert_eq!(request.body(), None);
    assert_eq!(ClearRequest::default().path(), "/clear/");
}

#[test]
fn empty_namespace_path_names_the_root() {
    assert_eq!(
        ClearRequest::new().namespace(String::new()).expr("$x".to_string()).path(),
        "/clear/%24x"
    );
    assert_eq!(ReadRequest::new().namespace(String::new()).path(), "/export/$x/$x/");
    assert_eq!(
        TransformRequest::new().namespace(String::new()).transform_code(),
        "(transform (, $x) (, $x))"
    );
}

#[test]
fn builders_do_not_depend_on_call_order() {
    let one = UploadRequest::new()
        .data("d".to_string())
        .template("(t)".to_string())
        .pattern("(p)".to_string())
        .namespace("/n/".to_string());
    let other = UploadRequest::new()
        .namespace("/n/".to_string())
        .pattern("(p)".to_string())
        .template("(t)".to_string())
        .data("d".to_string());
    assert_eq!(one.path(), other.path());
    assert_eq!(one.body(), other.body());
}

#[test]
fn union_maps_every_operation_to_its_wire_form() {
    let upload = Request::Upload(
        UploadRequest::new().pattern("$x".to_string()).template("$x".to_string()).data("(foo bar)".to_string()),
    );
    let wire = upload.wire();
    assert_eq!(wire.method, Method::Post);
    assert_eq!(wire.path, "/upload/%24x/%24x");
    assert_eq!(wire.body, Some("(foo bar)".to_string()));
    assert_eq!(wire.encoding, BodyEncoding::Text);

    let transform = Request::Transform(TransformRequest::new());
    let wire = transform.wire();
    assert_eq!(wire.method, Method::Post);
    assert_eq!(wire.path, "/transform");
    assert_eq!(wire.body, Some("(transform (, $x) (, $x))".to_string()));
    assert_eq!(wire.encoding, BodyEncoding::Text);

    let others = vec![
        (Request::Import(ImportRequest::new()), "/import/$x/$x/?uri="),
        (Request::Read(ReadRequest::new()), "/export/$x/$x/"),
        (Request::Explore(ExploreRequest::new()), "/explore/$x//"),
        (Request::Export(ExportRequest::new()), "/export/%24x/%24x"),
        (Request::Clear(ClearRequest::new()), "/clear/"),
    ];
    for (request, path) in others {
        let wire = request.wire();
        assert_eq!(wire.method, Method::Get);
        assert_eq!(wire.path, path);
        assert_eq!(wire.body, None);
        assert_eq!(wire.encoding, BodyEncoding::Empty);
        assert_eq!(request.method(), Method::Get);
        assert_eq!(request.path(), path);
        assert_eq!(request.body(), None);
        assert_eq!(request.encoding(), BodyEncoding::Empty);
    }
}
