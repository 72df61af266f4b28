use meter_archive::config::ApiConfig;
use meter_archive::decimal::{decimal_string, push_decimal};
use meter_archive::fetch::{authorization_header, basic_authorization, is_success, read_response, request_for};
use meter_archive::error::ArchiveError;

fn sample_config() -> ApiConfig {
    ApiConfig::new(
        "https://api.example.com/v1/electricity-meter-points",
        "sk_live_abc",
        "1200012345678",
        "21L4381234",
        24000,
        "2024-01-01T00:00Z",
        "2024-01-02T00:00Z",
    )
}

const EXPECTED_URL: &str = "https://api.example.com/v1/electricity-meter-points/1200012345678/meters/21L4381234/consumption/?page_size=24000&period_from=2024-01-01T00:00Z&period_to=2024-01-02T00:00Z";

#[test]
fn decimal_renders_digits() {
    assert_eq!(decimal_string(0), "0");
    assert_eq!(decimal_string(7), "7");
    assert_eq!(decimal_string(10), "10");
    assert_eq!(decimal_string(24000), "24000");
    assert_eq!(decimal_string(usize::MAX), usize::MAX.to_string());
    let mut s = String::from("n=");
    push_decimal(&mut s, 509);
    assert_eq!(s, "n=509");
}

#[test]
fn url_follows_template() {
    let c = sample_config();
    assert_eq!(c.url(), EXPECTED_URL);
}

#[test]
fn url_fields_in_template_order() {
    let c = sample_config();
    let u = c.url();
    let fields = ["https://api.example.com/v1/electricity-meter-points", "1200012345678", "21L4381234", "24000", "2024-01-01T00:00Z", "2024-01-02T00:00Z"];
    let mut from = 0;
    for f in fields {
        assert_eq!(u.matches(f).count(), 1, "{f}");
        let at = u.find(f).unwrap();
        assert!(at >= from);
        from = at + f.len();
    }
}

#[test]
fn url_same_before_and_after_caching() {
    let mut c = sample_config();
    let first = c.url();
    let second = c.url();
    assert_eq!(first, second);
    c.cache_url();
    assert_eq!(c.url(), first);
    c.cache_url();
    assert_eq!(c.url(), first);
}

#[test]
fn api_key_kept() {
    assert_eq!(sample_config().api_key(), "sk_live_abc");
}

#[test]
fn authorization_encodes_key_only() {
    assert_eq!(authorization_header("abc"), "Basic YWJj");
    assert_eq!(authorization_header("key:"), "Basic a2V5Og==");
    assert_eq!(authorization_header(""), "Basic ");
    assert_eq!(basic_authorization("Zm9v"), "Basic Zm9v");
}

#[test]
fn request_carries_url_and_header() {
    let r = request_for(&sample_config());
    assert_eq!(r.url, EXPECTED_URL);
    assert_eq!(r.authorization, "Basic c2tfbGl2ZV9hYmM=");
}

#[test]
fn success_class_only() {
    assert!(is_success(200));
    assert!(is_success(204));
    assert!(is_success(299));
    assert!(!is_success(199));
    assert!(!is_success(301));
    assert!(!is_success(401));
    assert!(!is_success(500));
}

#[test]
fn unauthorized_is_api_error() {
    match read_response(401, "{\"detail\":\"Authentication credentials were not provided.\"}") {
        Err(ArchiveError::Api { status, body }) => {
            assert_eq!(status, 401);
            assert!(body.contains("Authentication"));
        }
        other => panic!("unexpected {:?}", other.map(|_| ())),
    }
}

#[test]
fn server_error_is_api_error() {
    assert!(matches!(read_response(503, "busy"), Err(ArchiveError::Api { status: 503, .. })));
}

#[test]
fn failure_status_with_json_body_is_api_error() {
    assert!(matches!(read_response(404, "{\"results\": []}"), Err(ArchiveError::Api { status: 404, .. })));
}

#[test]
fn success_with_json_body() {
    let doc = read_response(200, "{\"results\": []}").unwrap();
    assert!(doc.get("results").unwrap().is_array());
}

#[test]
fn success_with_garbage_body() {
    match read_response(200, "<html>") {
        Err(ArchiveError::Decode { body }) => assert_eq!(body, "<html>"),
        other => panic!("unexpected {:?}", other.map(|_| ())),
    }
}
