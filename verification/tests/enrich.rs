use sage_wiki_bridge::enrich::{
    location_summary_from, validate_public_http_url, JinaReaderOptions, LbsResult, TencentLbsOptions,
};
use sage_wiki_bridge::error::BridgeError;

#[test]
fn builds_jina_reader_url() {
    let options = JinaReaderOptions { endpoint: "https://r.jina.ai/".to_string() };

    let url = options.build_reader_url("https://example.com/article").unwrap();

    assert_eq!(url.as_str(), "https://r.jina.ai/https://example.com/article");
}

#[test]
fn rejects_localhost_url() {
    let err = validate_public_http_url("http://localhost:3000").unwrap_err();
    assert!(matches!(err, BridgeError::UrlNotAllowed(_)));
}

#[test]
fn rejects_private_ip_url() {
    let err = validate_public_http_url("http://192.168.1.10/page").unwrap_err();
    assert!(matches!(err, BridgeError::UrlNotAllowed(_)));
    assert_eq!(err.describe(), "url not allowed: 192.168.1.10");
}

#[test]
fn rejects_non_http_scheme() {
    let err = validate_public_http_url("file:///etc/passwd").unwrap_err();
    assert!(matches!(err, BridgeError::UrlNotAllowed(_)));
}

#[test]
fn rejects_local_ipv6_and_accepts_public_hosts() {
    let err = validate_public_http_url("http://[::1]:8080/").unwrap_err();
    assert_eq!(err.describe(), "url not allowed: ::1");
    let err = validate_public_http_url("http://[fd00::5]/").unwrap_err();
    assert_eq!(err.describe(), "url not allowed: fd00::5");
    assert!(validate_public_http_url("https://8.8.8.8/").is_ok());
    assert!(validate_public_http_url("https://example.com/").is_ok());
    let err = validate_public_http_url("http://API.LOCALHOST/x").unwrap_err();
    assert_eq!(err.describe(), "url not allowed: api.localhost");
    let err = validate_public_http_url("ftp://example.com/").unwrap_err();
    assert_eq!(err.describe(), "url not allowed: scheme ftp");
    assert!(validate_public_http_url("not a url").is_err());
}

#[test]
fn builds_reverse_geocode_url_with_latitude_first() {
    let options = TencentLbsOptions {
        endpoint: "https://apis.map.qq.com/ws/geocoder/v1/".to_string(),
        key: "test-key".to_string(),
        get_poi: true,
        radius_meters: Some(500),
    };

    let url = options.build_reverse_geocode_url("23.134521", "113.358803").unwrap();

    assert!(url.starts_with("https://"));
    assert!(url.contains("location=23.134521%2C113.358803"));
    assert!(url.contains("radius=500"));
    assert!(url.contains("get_poi=1"));
}

#[test]
fn reverse_geocode_url_needs_a_url_endpoint() {
    let options = TencentLbsOptions {
        endpoint: "nowhere".to_string(),
        key: "k".to_string(),
        get_poi: false,
        radius_meters: None,
    };
    assert!(matches!(options.build_reverse_geocode_url("1", "2").unwrap_err(), BridgeError::Config(_)));
}

#[test]
fn extracts_location_summary_fields() {
    let summary = location_summary_from(Some(LbsResult {
        address: Some("广东省广州市天河区示例路1号".to_string()),
        province: Some("广东省".to_string()),
        city: Some("广州市".to_string()),
        district: Some("天河区".to_string()),
        adcode: Some("440106".to_string()),
        city_code: Some("020".to_string()),
    }))
    .unwrap();
    assert_eq!(summary.address.as_deref(), Some("广东省广州市天河区示例路1号"));
    assert_eq!(summary.city_code.as_deref(), Some("020"));
    let err = location_summary_from(None).unwrap_err();
    assert_eq!(err.describe(), "configuration error: Tencent LBS response missing result");
}
